//! Formatting of the aggregated state into the output record.
//!
//! An emission payload (current sample, running maxima, optional connection
//! summary, profile name) becomes a record with a `text` field (the profile
//! name) and a multi-line `tooltip`; the record is rendered as one single-line
//! JSON object. A blank record clears the display when a stream ends.

use vstd::prelude::*;
use crate::aggregate::TrafficSample;
use crate::format::{format_byte, format_byte_spec, format_rate, rate_text};
use crate::numfmt::{dec_digit, dec_rep, u64_to_decimal};
use crate::strutil::{chars_to_string, str_chars};

verus! {

/// A one-shot snapshot of the daemon's connection totals, fetched at
/// emission time only.
#[derive(Clone, Copy, PartialEq, Eq, Structural, Debug)]
pub struct ConnectionSummary {
    pub active_connection_count: u64,
    pub cumulative_upload_bytes: u64,
    pub cumulative_download_bytes: u64,
}

/// Everything one emission shows: the sample that triggered it, the running
/// maxima, the connection summary (absent when its fetch failed, in which
/// case the display degrades to empty fields), and the display profile name.
pub struct EmissionPayload {
    pub sample: TrafficSample,
    pub max_upload: u64,
    pub max_download: u64,
    pub summary: Option<ConnectionSummary>,
    pub profile_name: String,
}

/// The structured record written to output, one JSON object per line.
#[derive(Clone, Debug)]
pub struct OutputRecord {
    pub text: String,
    pub tooltip: String,
}

/// A colorized fragment: the value wrapped in a span carrying the color.
pub open spec fn span_text(color: Seq<char>, value: Seq<char>) -> Seq<char> {
    "<span foreground='"@ + color + "'> "@ + value + "</span>"@
}

/// Build one colorized fragment.
fn render_span(color: &str, value: &str) -> (r: String)
    ensures
        r@ == span_text(color@, value@),
{
    let mut s = String::from_str("<span foreground='");
    s.append(color);
    s.append("'> ");
    s.append(value);
    s.append("</span>");
    proof {
        assert(s@ =~= span_text(color@, value@));
    }
    s
}

/// The connection count shown: decimal, or empty when no summary came.
pub open spec fn count_text(summary: Option<ConnectionSummary>) -> Seq<char> {
    match summary {
        Some(s) => dec_rep(s.active_connection_count as nat),
        None => Seq::empty(),
    }
}

/// A cumulative total shown: formatted bytes, or empty when no summary came.
pub open spec fn total_text(total: Option<u64>) -> Seq<char> {
    match total {
        Some(v) => format_byte_spec(v),
        None => Seq::empty(),
    }
}

/// The tooltip: connection count and current rates on the first line, the
/// running maxima on the second, the cumulative totals on the third; the
/// download fragment precedes the upload fragment on each line.
pub open spec fn tooltip_spec(p: EmissionPayload, dl_color: Seq<char>, up_color: Seq<char>) -> Seq<
    char,
> {
    let tot_up = match p.summary {
        Some(s) => Some(s.cumulative_upload_bytes),
        None => None,
    };
    let tot_down = match p.summary {
        Some(s) => Some(s.cumulative_download_bytes),
        None => None,
    };
    " "@ + count_text(p.summary) + " "@ + span_text(dl_color, rate_text(p.sample.down)) + " "@
        + span_text(up_color, rate_text(p.sample.up)) + "\n"@ + "Max: "@ + span_text(
        dl_color,
        rate_text(p.max_download),
    ) + " "@ + span_text(up_color, rate_text(p.max_upload)) + "\n"@ + "Total: "@ + span_text(
        dl_color,
        total_text(tot_down),
    ) + " "@ + span_text(up_color, total_text(tot_up))
}

/// Format an emission payload into the output record: `text` is the profile
/// name, `tooltip` the three detail lines.
pub fn render_record(p: &EmissionPayload, dl_color: &str, up_color: &str) -> (r: OutputRecord)
    ensures
        r.text@ == p.profile_name@,
        r.tooltip@ == tooltip_spec(*p, dl_color@, up_color@),
{
    let count = match &p.summary {
        Some(s) => u64_to_decimal(s.active_connection_count),
        None => String::new(),
    };
    let tot_up = match &p.summary {
        Some(s) => format_byte(s.cumulative_upload_bytes),
        None => String::new(),
    };
    let tot_down = match &p.summary {
        Some(s) => format_byte(s.cumulative_download_bytes),
        None => String::new(),
    };
    let cur_down = format_rate(p.sample.down);
    let cur_up = format_rate(p.sample.up);
    let max_down = format_rate(p.max_download);
    let max_up = format_rate(p.max_upload);

    let mut tooltip = String::from_str(" ");
    tooltip.append(count.as_str());
    tooltip.append(" ");
    tooltip.append(render_span(dl_color, cur_down.as_str()).as_str());
    tooltip.append(" ");
    tooltip.append(render_span(up_color, cur_up.as_str()).as_str());
    tooltip.append("\n");
    tooltip.append("Max: ");
    tooltip.append(render_span(dl_color, max_down.as_str()).as_str());
    tooltip.append(" ");
    tooltip.append(render_span(up_color, max_up.as_str()).as_str());
    tooltip.append("\n");
    tooltip.append("Total: ");
    tooltip.append(render_span(dl_color, tot_down.as_str()).as_str());
    tooltip.append(" ");
    tooltip.append(render_span(up_color, tot_up.as_str()).as_str());
    proof {
        assert(tooltip@ =~= tooltip_spec(*p, dl_color@, up_color@));
    }
    let text = p.profile_name.clone();
    OutputRecord { text, tooltip }
}

/// The blank record emitted once when a stream ends, clearing the display.
pub fn blank_record() -> (r: OutputRecord)
    ensures
        r.text@ == Seq::<char>::empty(),
        r.tooltip@ == Seq::<char>::empty(),
{
    OutputRecord { text: String::new(), tooltip: String::new() }
}

/// The hexadecimal digit character for a value below sixteen, lowercase.
pub open spec fn hex_digit(d: int) -> char {
    if d < 10 {
        dec_digit(d)
    } else {
        ((d - 10 + 97) as u8) as char
    }
}

/// The JSON escape of one character: quote and backslash are escaped, the
/// named control characters take their short escapes, the remaining control
/// characters a `\u00..` escape, and every other character stands as itself.
pub open spec fn esc_char(c: char) -> Seq<char> {
    let n = c as u32;
    if n == 34 {
        seq!['\\', '"']
    } else if n == 92 {
        seq!['\\', '\\']
    } else if n == 8 {
        seq!['\\', 'b']
    } else if n == 9 {
        seq!['\\', 't']
    } else if n == 10 {
        seq!['\\', 'n']
    } else if n == 12 {
        seq!['\\', 'f']
    } else if n == 13 {
        seq!['\\', 'r']
    } else if n < 32 {
        seq!['\\', 'u', '0', '0', hex_digit((n as int) / 16), hex_digit((n as int) % 16)]
    } else {
        seq![c]
    }
}

/// The JSON escape of a string: each character escaped in order.
pub open spec fn json_escape(s: Seq<char>) -> Seq<char>
    decreases s.len(),
{
    if s.len() == 0 {
        Seq::empty()
    } else {
        json_escape(s.drop_last()) + esc_char(s.last())
    }
}

/// Escape a string for inclusion in a JSON string literal.
fn escape_json(s: &str) -> (r: String)
    ensures
        r@ == json_escape(s@),
{
    let cs = str_chars(s);
    let mut out: Vec<char> = Vec::new();
    let mut i: usize = 0;
    while i < cs.len()
        invariant
            i <= cs@.len(),
            cs@ == s@,
            out@ == json_escape(s@.take(i as int)),
        decreases cs@.len() - i,
    {
        let c = cs[i];
        let n = c as u32;
        let ghost out_old = out@;
        if n == 34 {
            out.push('\\');
            out.push('"');
        } else if n == 92 {
            out.push('\\');
            out.push('\\');
        } else if n == 8 {
            out.push('\\');
            out.push('b');
        } else if n == 9 {
            out.push('\\');
            out.push('t');
        } else if n == 10 {
            out.push('\\');
            out.push('n');
        } else if n == 12 {
            out.push('\\');
            out.push('f');
        } else if n == 13 {
            out.push('\\');
            out.push('r');
        } else if n < 32 {
            out.push('\\');
            out.push('u');
            out.push('0');
            out.push('0');
            let hi: u32 = n / 16;
            let lo: u32 = n % 16;
            let hc: char = if hi < 10 {
                (48 + hi as u8) as char
            } else {
                (97 + (hi as u8 - 10)) as char
            };
            let lc: char = if lo < 10 {
                (48 + lo as u8) as char
            } else {
                (97 + (lo as u8 - 10)) as char
            };
            out.push(hc);
            out.push(lc);
        } else {
            out.push(c);
        }
        proof {
            assert(out@ =~= out_old + esc_char(s@[i as int]));
            assert(s@.take(i + 1).drop_last() =~= s@.take(i as int));
            assert(s@.take(i + 1).last() == s@[i as int]);
            assert(out@ =~= json_escape(s@.take(i + 1)));
        }
        i += 1;
    }
    proof {
        assert(s@.take(cs@.len() as int) =~= s@);
    }
    chars_to_string(&out)
}

/// The single-line JSON object for a record: fixed `alt`, `class` and
/// `percentage` fields, then the escaped `text` and `tooltip`.
pub open spec fn json_line_spec(text: Seq<char>, tooltip: Seq<char>) -> Seq<char> {
    "{\"alt\":\"\",\"class\":\"\",\"percentage\":0,\"text\":\""@ + json_escape(text)
        + "\",\"tooltip\":\""@ + json_escape(tooltip) + "\"}"@
}

/// Serialize a record as one single-line JSON object.
pub fn render_json_line(rec: &OutputRecord) -> (r: String)
    ensures
        r@ == json_line_spec(rec.text@, rec.tooltip@),
{
    let esc_text = escape_json(rec.text.as_str());
    let esc_tooltip = escape_json(rec.tooltip.as_str());
    let mut line = String::from_str("{\"alt\":\"\",\"class\":\"\",\"percentage\":0,\"text\":\"");
    line.append(esc_text.as_str());
    line.append("\",\"tooltip\":\"");
    line.append(esc_tooltip.as_str());
    line.append("\"}");
    proof {
        assert(line@ =~= json_line_spec(rec.text@, rec.tooltip@));
    }
    line
}

} // verus!
