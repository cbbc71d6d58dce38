use vstd::prelude::*;

use crate::text::{parse_uint, parsed_uint};

verus! {

/// The terminal's size in cells.
#[derive(Debug, Clone, Copy, PartialEq, Eq, Structural)]
pub struct TerminalGrid {
    pub cols: u16,
    pub rows: u16,
}

/// The terminal's size in pixels.
#[derive(Debug, Clone, Copy, PartialEq, Eq, Structural)]
pub struct TerminalPixels {
    pub width: u16,
    pub height: u16,
}

/// Where a size measurement came from.
#[derive(Debug, Clone, Copy, PartialEq, Eq, Structural)]
pub enum MetricSource {
    Ioctl,
    Env,
    Unknown,
}

impl MetricSource {
    /// The source's name as the probe output shows it.
    pub fn as_str(self) -> (s: &'static str)
        ensures
            s@ == match self {
                MetricSource::Ioctl => "ioctl"@,
                MetricSource::Env => "env"@,
                MetricSource::Unknown => "unknown"@,
            },
    {
        match self {
            MetricSource::Ioctl => "ioctl",
            MetricSource::Env => "env",
            MetricSource::Unknown => "unknown",
        }
    }
}

/// What is known of the terminal's size.
#[derive(Debug, Clone, Copy, PartialEq, Eq, Structural)]
pub struct TerminalMetrics {
    pub grid: Option<TerminalGrid>,
    pub pixels: Option<TerminalPixels>,
    pub source: MetricSource,
}

/// The metrics a window-size query gives: none unless the grid is non-empty; pixels
/// only when both pixel sides are known.
pub open spec fn winsize_metrics(cols: u16, rows: u16, xpixel: u16, ypixel: u16) -> Option<TerminalMetrics> {
    if cols > 0 && rows > 0 {
        Some(TerminalMetrics {
            grid: Some(TerminalGrid { cols, rows }),
            pixels: if xpixel > 0 && ypixel > 0 {
                Some(TerminalPixels { width: xpixel, height: ypixel })
            } else {
                None
            },
            source: MetricSource::Ioctl,
        })
    } else {
        None
    }
}

/// Reads a window-size answer: `None` when the grid is empty.
pub fn metrics_from_winsize(cols: u16, rows: u16, xpixel: u16, ypixel: u16) -> (m: Option<TerminalMetrics>)
    ensures
        m == winsize_metrics(cols, rows, xpixel, ypixel),
{
    if cols > 0 && rows > 0 {
        Some(TerminalMetrics {
            grid: Some(TerminalGrid { cols, rows }),
            pixels: if xpixel > 0 && ypixel > 0 {
                Some(TerminalPixels { width: xpixel, height: ypixel })
            } else {
                None
            },
            source: MetricSource::Ioctl,
        })
    } else {
        None
    }
}

/// The metrics the `COLUMNS` and `LINES` variables give: a grid when both parse, no
/// pixel size.
pub open spec fn env_metrics(columns: Option<u16>, lines: Option<u16>) -> TerminalMetrics {
    match (columns, lines) {
        (Some(cols), Some(rows)) => TerminalMetrics {
            grid: Some(TerminalGrid { cols, rows }),
            pixels: None,
            source: MetricSource::Env,
        },
        _ => TerminalMetrics { grid: None, pixels: None, source: MetricSource::Unknown },
    }
}

/// Builds the fallback metrics from the parsed `COLUMNS` and `LINES` values.
pub fn metrics_from_env(columns: Option<u16>, lines: Option<u16>) -> (m: TerminalMetrics)
    ensures
        m == env_metrics(columns, lines),
{
    match (columns, lines) {
        (Some(cols), Some(rows)) => TerminalMetrics {
            grid: Some(TerminalGrid { cols, rows }),
            pixels: None,
            source: MetricSource::Env,
        },
        _ => TerminalMetrics { grid: None, pixels: None, source: MetricSource::Unknown },
    }
}

/// What `str::parse::<u16>` gives.
pub open spec fn parsed_u16(s: Seq<char>) -> Option<u16> {
    match parsed_uint(s, u16::MAX as nat) {
        Some(v) => Some(v as u16),
        None => None,
    }
}

/// Parses a decimal `u16` as `str::parse` does.
pub fn parse_u16(s: &str) -> (r: Option<u16>)
    ensures
        r == parsed_u16(s@),
{
    match parse_uint(s, u16::MAX as u32) {
        Some(v) => Some(v as u16),
        None => None,
    }
}

} // verus!
