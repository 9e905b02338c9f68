//! Text shown in the menu bar and handed to the notification service.

use vstd::prelude::*;

use crate::cache_monitor::{CacheState, CacheStatus};
use crate::text::{chars_of, decimal, decimal_string};

verus! {

/// The coloured circle that marks a tier.
pub open spec fn indicator(s: CacheState) -> Seq<char> {
    match s {
        CacheState::Normal => "🟢"@,
        CacheState::Warning => "🟠"@,
        CacheState::Critical => "🔴"@,
    }
}

/// The label of a tier in the tooltip.
pub open spec fn tier_label(s: CacheState) -> Seq<char> {
    match s {
        CacheState::Normal => "Normal"@,
        CacheState::Warning => "Warning (5GB+)"@,
        CacheState::Critical => "Critical (10GB+)"@,
    }
}

fn indicator_str(s: CacheState) -> (r: &'static str)
    ensures
        r@ == indicator(s),
{
    match s {
        CacheState::Normal => "🟢",
        CacheState::Warning => "🟠",
        CacheState::Critical => "🔴",
    }
}

fn tier_label_str(s: CacheState) -> (r: &'static str)
    ensures
        r@ == tier_label(s),
{
    match s {
        CacheState::Normal => "Normal",
        CacheState::Warning => "Warning (5GB+)",
        CacheState::Critical => "Critical (10GB+)",
    }
}

/// The menu-bar title: the tier's circle and the size.
pub fn format_tray_title(status: &CacheStatus) -> (r: String)
    ensures
        r@ == indicator(status.state) + " "@ + status.size_display@,
{
    let mut r = String::from_str(indicator_str(status.state));
    r.append(" ");
    r.append(status.size_display.as_str());
    r
}

/// The menu-bar tooltip: size, file count and tier.
pub fn format_tray_tooltip(status: &CacheStatus) -> (r: String)
    ensures
        r@ == "SymbolSweep\n"@ + status.size_display@ + " - "@ + decimal(status.file_count as nat)
            + " files\nStatus: "@ + tier_label(status.state),
{
    let mut r = String::from_str("SymbolSweep\n");
    r.append(status.size_display.as_str());
    r.append(" - ");
    let n = decimal_string(status.file_count);
    r.append(n.as_str());
    r.append(" files\nStatus: ");
    r.append(tier_label_str(status.state));
    r
}

/// `s` with a backslash put before each double quote.
pub open spec fn escape_quotes(s: Seq<char>) -> Seq<char>
    decreases s.len(),
{
    if s.len() == 0 {
        seq![]
    } else if s.last() == '"' {
        escape_quotes(s.drop_last()) + "\\\""@
    } else {
        escape_quotes(s.drop_last()).push(s.last())
    }
}

/// Puts a backslash before each double quote of `s`.
pub fn escape_quotes_of(s: &str) -> (r: String)
    ensures
        r@ == escape_quotes(s@),
{
    let cs = chars_of(s);
    let n = cs.len();
    let mut r = String::new();
    let mut start: usize = 0;
    let mut i: usize = 0;
    while i < n
        invariant
            cs@ == s@,
            n == s@.len(),
            start <= i <= n,
            escape_quotes(s@.subrange(0, i as int)) == r@ + s@.subrange(start as int, i as int),
        decreases n - i,
    {
        let ghost next = s@.subrange(0, i + 1);
        assert(next.drop_last() =~= s@.subrange(0, i as int));
        if cs[i] == '"' {
            let run = s.substring_char(start, i);
            r.append(run);
            r.append("\\\"");
            start = i + 1;
            assert(s@.subrange(start as int, i + 1) =~= seq![]);
            assert(r@ + s@.subrange(start as int, i + 1) =~= r@);
        } else {
            assert(s@.subrange(start as int, i + 1) =~= s@.subrange(start as int, i as int).push(
                s@[i as int],
            ));
        }
        i = i + 1;
    }
    let rest = s.substring_char(start, n);
    r.append(rest);
    assert(s@.subrange(0, n as int) =~= s@);
    r
}

/// The AppleScript that shows a notification with a sound; quotes in the
/// title and body are escaped.
pub fn notification_script(title: &str, body: &str, sound: &str) -> (r: String)
    ensures
        r@ == "display notification \""@ + escape_quotes(body@) + "\" with title \""@
            + escape_quotes(title@) + "\" sound name \""@ + sound@ + "\""@,
{
    let mut r = String::from_str("display notification \"");
    let b = escape_quotes_of(body);
    r.append(b.as_str());
    r.append("\" with title \"");
    let t = escape_quotes_of(title);
    r.append(t.as_str());
    r.append("\" sound name \"");
    r.append(sound);
    r.append("\"");
    r
}

} // verus!
