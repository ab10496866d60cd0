use vstd::prelude::*;
use crate::text::{decimal, push_decimal, push_signed_decimal, signed_decimal};

verus! {

/// The file formats a frame can be exported in.
#[derive(Clone, Copy, Debug, PartialEq, Eq, Structural)]
pub enum ExportFormat {
    Png,
    Jpeg,
    Gif,
}

/// The format picked in the format list: 0 = PNG, 1 = JPEG, 2 = GIF.
pub open spec fn format_at(selection: u32) -> Option<ExportFormat> {
    if selection == 0 {
        Some(ExportFormat::Png)
    } else if selection == 1 {
        Some(ExportFormat::Jpeg)
    } else if selection == 2 {
        Some(ExportFormat::Gif)
    } else {
        None
    }
}

pub open spec fn extension_text(f: ExportFormat) -> Seq<char> {
    match f {
        ExportFormat::Png => seq!['p', 'n', 'g'],
        ExportFormat::Jpeg => seq!['j', 'p', 'g'],
        ExportFormat::Gif => seq!['g', 'i', 'f'],
    }
}

/// The wait before a capture, in milliseconds, for an entry of the delay
/// list: none, 3 s, 5 s, 10 s. Any other entry captures at once.
pub open spec fn delay_at(selection: u32) -> u64 {
    if selection == 1 {
        3000
    } else if selection == 2 {
        5000
    } else if selection == 3 {
        10000
    } else {
        0
    }
}

pub fn format_from_selection(selection: u32) -> (r: Option<ExportFormat>)
    ensures
        r == format_at(selection),
        r is Some <==> selection <= 2,
{
    match selection {
        0 => Some(ExportFormat::Png),
        1 => Some(ExportFormat::Jpeg),
        2 => Some(ExportFormat::Gif),
        _ => None,
    }
}

pub fn capture_delay_ms(selection: u32) -> (r: u64)
    ensures
        r == delay_at(selection),
{
    match selection {
        1 => 3000,
        2 => 5000,
        3 => 10000,
        _ => 0,
    }
}

impl ExportFormat {
    /// The file extension, without the dot.
    pub fn extension(&self) -> (r: &'static str)
        ensures
            r@ == extension_text(*self),
    {
        proof {
            reveal_strlit("png");
            reveal_strlit("jpg");
            reveal_strlit("gif");
        }
        match self {
            ExportFormat::Png => "png",
            ExportFormat::Jpeg => "jpg",
            ExportFormat::Gif => "gif",
        }
    }
}

pub open spec fn frame_prefix() -> Seq<char> {
    seq!['t', 'm', 'p']
}

pub open spec fn capture_prefix() -> Seq<char> {
    seq!['c', 'a', 'p', 't', 'u', 'r', 'e']
}

/// The file name under which timeline frame `index` is stored: `tmp<index>.png`.
pub open spec fn frame_name(index: nat) -> Seq<char> {
    frame_prefix() + decimal(index) + seq!['.'] + extension_text(ExportFormat::Png)
}

/// A local date and time, as read from the clock.
#[derive(Clone, Copy, Debug, PartialEq, Eq, Structural)]
pub struct Stamp {
    pub year: i32,
    pub month: u32,
    pub day: u32,
    pub hour: u32,
    pub minute: u32,
    pub second: u32,
}

/// The name offered for an export: `capture<Y>-<M>-<D>-<h>_<m>_<s>.<ext>`,
/// each number in plain decimal.
pub open spec fn export_name(t: Stamp, f: ExportFormat) -> Seq<char> {
    capture_prefix() + signed_decimal(t.year as int) + seq!['-'] + decimal(t.month as nat) + seq!['-']
        + decimal(t.day as nat) + seq!['-'] + decimal(t.hour as nat) + seq!['_'] + decimal(
        t.minute as nat,
    ) + seq!['_'] + decimal(t.second as nat) + seq!['.'] + extension_text(f)
}

pub fn frame_file_name(index: usize) -> (r: String)
    ensures
        r@ == frame_name(index as nat),
{
    proof {
        reveal_strlit("tmp");
        reveal_strlit(".");
    }
    let mut out = String::from_str("tmp");
    push_decimal(&mut out, index as u64);
    out.append(".");
    out.append(ExportFormat::Png.extension());
    out
}

pub fn default_export_name(t: Stamp, f: ExportFormat) -> (r: String)
    ensures
        r@ == export_name(t, f),
{
    proof {
        reveal_strlit("capture");
        reveal_strlit("-");
        reveal_strlit("_");
        reveal_strlit(".");
    }
    let mut out = String::from_str("capture");
    push_signed_decimal(&mut out, t.year as i64);
    out.append("-");
    push_decimal(&mut out, t.month as u64);
    out.append("-");
    push_decimal(&mut out, t.day as u64);
    out.append("-");
    push_decimal(&mut out, t.hour as u64);
    out.append("_");
    push_decimal(&mut out, t.minute as u64);
    out.append("_");
    push_decimal(&mut out, t.second as u64);
    out.append(".");
    out.append(f.extension());
    out
}

} // verus!
