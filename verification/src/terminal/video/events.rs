use vstd::prelude::*;

use crate::app::spa::Key;

verus! {

/// What the video loop does with input.
#[derive(Debug, Clone, Copy, PartialEq, Eq, Structural)]
pub enum VideoEvent {
    Nothing,
    Exit,
    Mute,
    Start,
    Resize(u16, u16),
}

/// A terminal event as plain values: a key with its modifiers, a resize, or anything else.
#[derive(Debug, Clone, Copy, PartialEq, Eq, Structural)]
pub enum TermEvent {
    Key { key: Key, ctrl: bool, no_modifiers: bool },
    Resize(u16, u16),
    Other,
}

/// Whether a key press interrupts: Esc, `q`, or Ctrl-C.
pub open spec fn is_interrupt(key: Key, ctrl: bool) -> bool {
    key == Key::Esc || key == Key::Char('q') || (key == Key::Char('c') && ctrl)
}

/// Whether a key press interrupts: Esc, `q`, or Ctrl-C.
pub fn interrupts(key: Key, ctrl: bool) -> (b: bool)
    ensures
        b == is_interrupt(key, ctrl),
{
    match key {
        Key::Esc => true,
        Key::Char(c) => c == 'q' || (c == 'c' && ctrl),
        _ => false,
    }
}

/// What the video loop makes of one terminal event; `None` means read on.
pub open spec fn video_event_of(ev: TermEvent) -> Option<VideoEvent> {
    match ev {
        TermEvent::Key { key, ctrl, no_modifiers } => if is_interrupt(key, ctrl) {
            Some(VideoEvent::Exit)
        } else if key == Key::Char('m') || key == Key::Char('M') {
            Some(VideoEvent::Mute)
        } else if key == Key::Enter && no_modifiers {
            Some(VideoEvent::Start)
        } else {
            None
        },
        TermEvent::Resize(cols, rows) => Some(VideoEvent::Resize(cols, rows)),
        TermEvent::Other => None,
    }
}

/// Classifies one terminal event for the video loop.
pub fn classify_video_event(ev: TermEvent) -> (r: Option<VideoEvent>)
    ensures
        r == video_event_of(ev),
{
    match ev {
        TermEvent::Key { key, ctrl, no_modifiers } => {
            if interrupts(key, ctrl) {
                Some(VideoEvent::Exit)
            } else if key == Key::Char('m') || key == Key::Char('M') {
                Some(VideoEvent::Mute)
            } else if key == Key::Enter && no_modifiers {
                Some(VideoEvent::Start)
            } else {
                None
            }
        },
        TermEvent::Resize(cols, rows) => Some(VideoEvent::Resize(cols, rows)),
        TermEvent::Other => None,
    }
}

} // verus!
