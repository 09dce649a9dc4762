use crate::locale::{is_zh_locale, locale_is_zh};
use crate::timer::Phase;
use vstd::prelude::*;

verus! {

pub open spec fn spec_phase_label_en(phase: Phase) -> Seq<char> {
    match phase {
        Phase::Focus => "Focus"@,
        Phase::ShortBreak => "Short Break"@,
        Phase::LongBreak => "Long Break"@,
    }
}

pub open spec fn spec_phase_label_zh(phase: Phase) -> Seq<char> {
    match phase {
        Phase::Focus => "\u{4e13}\u{6ce8}"@,
        Phase::ShortBreak => "\u{77ed}\u{4f11}\u{606f}"@,
        Phase::LongBreak => "\u{957f}\u{4f11}\u{606f}"@,
    }
}

/// The English display name of a phase.
pub fn phase_label_en_us(phase: Phase) -> (r: &'static str)
    ensures
        r@ == spec_phase_label_en(phase),
{
    match phase {
        Phase::Focus => "Focus",
        Phase::ShortBreak => "Short Break",
        Phase::LongBreak => "Long Break",
    }
}

/// The Chinese display name of a phase.
pub fn phase_label_zh_cn(phase: Phase) -> (r: &'static str)
    ensures
        r@ == spec_phase_label_zh(phase),
{
    match phase {
        Phase::Focus => "\u{4e13}\u{6ce8}",
        Phase::ShortBreak => "\u{77ed}\u{4f11}\u{606f}",
        Phase::LongBreak => "\u{957f}\u{4f11}\u{606f}",
    }
}

/// The text of a phase-transition alert: "<finished> ended. Next: <next>." in
/// the locale's bucket.
pub open spec fn spec_notification_body(finished: Phase, next: Phase, locale: Seq<char>) -> Seq<
    char,
> {
    if locale_is_zh(locale) {
        spec_phase_label_zh(finished) + "\u{5df2}\u{7ed3}\u{675f}\u{ff0c}\u{4e0b}\u{4e00}\u{9636}\u{6bb5}\u{ff1a}"@
            + spec_phase_label_zh(next) + "\u{3002}"@
    } else {
        spec_phase_label_en(finished) + " ended. Next: "@ + spec_phase_label_en(next) + "."@
    }
}

/// Builds the body text of a phase-transition alert for the locale's bucket.
pub fn notification_body(finished: Phase, next: Phase, locale: &str) -> (r: String)
    ensures
        r@ == spec_notification_body(finished, next, locale@),
{
    let mut body = String::new();
    if is_zh_locale(locale) {
        body.append(phase_label_zh_cn(finished));
        body.append("\u{5df2}\u{7ed3}\u{675f}\u{ff0c}\u{4e0b}\u{4e00}\u{9636}\u{6bb5}\u{ff1a}");
        body.append(phase_label_zh_cn(next));
        body.append("\u{3002}");
    } else {
        body.append(phase_label_en_us(finished));
        body.append(" ended. Next: ");
        body.append(phase_label_en_us(next));
        body.append(".");
    }
    proof {
        assert(body@ =~= spec_notification_body(finished, next, locale@));
    }
    body
}

} // verus!
