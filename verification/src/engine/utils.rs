use crate::text::{decimal, push_decimal, same_text, trim, trimmed};
use vstd::prelude::*;

verus! {

/// Whether a chassis type, as the firmware reports it, is that of a
/// portable machine: 8, 9 or 10, white space around it aside.
pub open spec fn laptop_chassis(content: Seq<char>) -> bool {
    let kind = trimmed(content);
    kind == "8"@ || kind == "9"@ || kind == "10"@
}

/// Whether the machine is a laptop, given the chassis type if it could be
/// read.
pub fn is_laptop(chassis_type: Option<&str>) -> (laptop: bool)
    ensures
        laptop == (chassis_type matches Some(content) && laptop_chassis(content@)),
{
    match chassis_type {
        Some(content) => {
            let kind = trim(content);
            same_text(kind.as_str(), "8") || same_text(kind.as_str(), "9") || same_text(
                kind.as_str(),
                "10",
            )
        },
        None => false,
    }
}

/// A span of whole seconds in words: seconds below a minute, minutes and
/// seconds below an hour, hours and minutes from there on.
pub open spec fn duration_text(secs: nat) -> Seq<char> {
    if secs < 60 {
        Seq::<char>::empty() + decimal(secs) + "s"@
    } else if secs < 3600 {
        Seq::<char>::empty() + decimal(secs / 60) + "m "@ + decimal(secs % 60) + "s"@
    } else {
        Seq::<char>::empty() + decimal(secs / 3600) + "h "@ + decimal((secs % 3600) / 60) + "m"@
    }
}

/// Writes a span of whole seconds in words.
pub fn format_duration(secs: u64) -> (out: String)
    ensures
        out@ == duration_text(secs as nat),
{
    let mut out = String::new();
    if secs < 60 {
        push_decimal(&mut out, secs);
        out.append("s");
    } else if secs < 3600 {
        push_decimal(&mut out, secs / 60);
        out.append("m ");
        push_decimal(&mut out, secs % 60);
        out.append("s");
    } else {
        push_decimal(&mut out, secs / 3600);
        out.append("h ");
        push_decimal(&mut out, (secs % 3600) / 60);
        out.append("m");
    }
    out
}

} // verus!
