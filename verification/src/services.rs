pub mod suspend;
