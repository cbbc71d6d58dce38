use vstd::prelude::*;

use crate::text::{parse_uint, parsed_uint, trim, trim_chars};

verus! {

/// A video's frame size.
#[derive(Debug, Clone, Copy, PartialEq, Eq, Structural)]
pub struct VideoMetadata {
    pub width: u32,
    pub height: u32,
}

impl VideoMetadata {
    /// Bytes of one RGB frame.
    pub fn frame_len(self) -> (n: usize)
        requires
            self.width * self.height * 3 <= u32::MAX,
        ensures
            n == self.width * self.height * 3,
    {
        (self.width * self.height * 3) as usize
    }
}

/// The position of the first `c` in `s`, if any.
pub open spec fn first_index_of(s: Seq<char>, c: char) -> Option<int> {
    if exists|i: int| 0 <= i < s.len() && s[i] == c {
        Some(choose|i: int| 0 <= i < s.len() && s[i] == c && forall|j: int| 0 <= j < i ==> s[j] != c)
    } else {
        None
    }
}

/// The frame size in the probe's `WIDTHxHEIGHT` answer (surrounding white space
/// ignored, split at the first `x`), or the error naming what was wrong.
pub open spec fn parsed_dimensions(text: Seq<char>) -> Result<VideoMetadata, Seq<char>> {
    let t = trim_chars(text);
    match first_index_of(t, 'x') {
        None => Err("ffprobe returned invalid video dimensions"@),
        Some(i) => match parsed_uint(t.take(i), u32::MAX as nat) {
            None => Err("invalid ffprobe width"@),
            Some(w) => match parsed_uint(t.skip(i + 1), u32::MAX as nat) {
                None => Err("invalid ffprobe height"@),
                Some(h) => Ok(VideoMetadata { width: w as u32, height: h as u32 }),
            },
        },
    }
}

/// Reads the frame size from the probe's answer.
pub fn parse_dimensions(text: &str) -> (r: Result<VideoMetadata, String>)
    ensures
        match parsed_dimensions(text@) {
            Ok(m) => r == Ok::<VideoMetadata, String>(m),
            Err(msg) => r is Err && r->Err_0@ == msg,
        },
{
    let t = trim(text);
    let s = t.as_str();
    let n = s.unicode_len();
    let mut i: usize = 0;
    while i < n && s.get_char(i) != 'x'
        invariant
            n == s@.len(),
            i <= n,
            forall|j: int| 0 <= j < i ==> s@[j] != 'x',
        decreases n - i,
    {
        i = i + 1;
    }
    if i == n {
        assert(!(exists|k: int| 0 <= k < s@.len() && s@[k] == 'x'));
        return Err(String::from_str("ffprobe returned invalid video dimensions"));
    }
    proof {
        assert(s@[i as int] == 'x');
        let k = choose|k: int| 0 <= k < s@.len() && s@[k] == 'x' && forall|j: int| 0 <= j < k ==> s@[j] != 'x';
        assert(k == i as int) by {
            if k < i as int {
                assert(s@[k] != 'x');
            }
            if k > i as int {
                assert(s@[i as int] != 'x');
            }
        }
    }
    let left = s.substring_char(0, i);
    let right = s.substring_char(i + 1, n);
    assert(left@ =~= s@.take(i as int));
    assert(right@ =~= s@.skip(i as int + 1));
    let width = match parse_uint(left, u32::MAX) {
        Some(w) => w,
        None => return Err(String::from_str("invalid ffprobe width")),
    };
    let height = match parse_uint(right, u32::MAX) {
        Some(h) => h,
        None => return Err(String::from_str("invalid ffprobe height")),
    };
    Ok(VideoMetadata { width, height })
}

} // verus!
