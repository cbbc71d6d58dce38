use vstd::prelude::*;

use crate::domain::training::AdvocateStats;
use crate::text::{dec_chars, push_char, push_u64};

verus! {

/// `c` repeated `n` times.
pub open spec fn repeat_char(c: char, n: nat) -> Seq<char>
    decreases n,
{
    if n == 0 { seq![] } else { repeat_char(c, (n - 1) as nat).push(c) }
}

/// A decimal value padded with zeros to three digits.
pub open spec fn pad3(v: nat) -> Seq<char> {
    if v < 10 {
        "00"@ + dec_chars(v)
    } else if v < 100 {
        "0"@ + dec_chars(v)
    } else {
        dec_chars(v)
    }
}

/// How many of the bar's twenty slots a value fills; values above 100 count as 100.
pub open spec fn bar_filled(value: u16) -> nat {
    (if value > 100 { 100 } else { value as nat }) * 20 / 100
}

/// `[###.....] 042`: a twenty-slot bar for the value and the value padded to three digits.
pub open spec fn bar_text(value: u16) -> Seq<char> {
    "["@ + repeat_char('#', bar_filled(value)) + repeat_char('.', (20 - bar_filled(value)) as nat) + "] "@
        + pad3(value as nat)
}

fn push_repeat(s: &mut String, c: char, n: usize)
    ensures
        final(s)@ == old(s)@ + repeat_char(c, n as nat),
{
    let ghost start = s@;
    let mut i: usize = 0;
    while i < n
        invariant
            i <= n,
            s@ == start + repeat_char(c, i as nat),
        decreases n - i,
    {
        push_char(s, c);
        i = i + 1;
        assert(s@ =~= start + repeat_char(c, i as nat));
    }
}

/// A text bar for an ability value.
pub fn bar(value: u16) -> (s: String)
    ensures
        s@ == bar_text(value),
{
    let capped: usize = if value > 100 { 100 } else { value as usize };
    let filled = capped * 20 / 100;
    let mut s = String::from_str("[");
    push_repeat(&mut s, '#', filled);
    push_repeat(&mut s, '.', 20 - filled);
    s.append("] ");
    if value < 10 {
        s.append("00");
    } else if value < 100 {
        s.append("0");
    }
    push_u64(&mut s, value as u64);
    assert(s@ =~= bar_text(value));
    s
}

/// A label padded with spaces to fifteen characters.
pub open spec fn pad15(label: Seq<char>) -> Seq<char> {
    label + repeat_char(' ', if label.len() < 15 { (15 - label.len()) as nat } else { 0 })
}

/// One ability line: the label padded to fifteen characters, a space, the bar.
pub open spec fn stat_line(label: Seq<char>, value: u16) -> Seq<char> {
    pad15(label) + " "@ + bar_text(value) + "\n"@
}

/// The five ability lines.
pub open spec fn stats_lines_text(stats: AdvocateStats) -> Seq<char> {
    stat_line("Logic Speed"@, stats.logic_speed) + stat_line("Mental Stamina"@, stats.mental_stamina)
        + stat_line("Speech Power"@, stats.speech_power) + stat_line("Guts"@, stats.guts)
        + stat_line("Intellect"@, stats.intellect)
}

fn push_stat_line(out: &mut String, label: &str, value: u16)
    ensures
        final(out)@ == old(out)@ + stat_line(label@, value),
{
    let ghost start = out@;
    out.append(label);
    let len = label.unicode_len();
    push_repeat(out, ' ', if len < 15 { 15 - len } else { 0 });
    out.append(" ");
    let b = bar(value);
    out.append(b.as_str());
    out.append("\n");
    assert(out@ =~= start + stat_line(label@, value));
}

/// Appends the five ability lines.
pub fn write_stats(out: &mut String, stats: AdvocateStats)
    ensures
        final(out)@ == old(out)@ + stats_lines_text(stats),
{
    let ghost start = out@;
    push_stat_line(out, "Logic Speed", stats.logic_speed);
    let ghost o1 = out@;
    push_stat_line(out, "Mental Stamina", stats.mental_stamina);
    let ghost o2 = out@;
    push_stat_line(out, "Speech Power", stats.speech_power);
    let ghost o3 = out@;
    push_stat_line(out, "Guts", stats.guts);
    let ghost o4 = out@;
    push_stat_line(out, "Intellect", stats.intellect);
    proof {
        let l1 = stat_line("Logic Speed"@, stats.logic_speed);
        let l2 = stat_line("Mental Stamina"@, stats.mental_stamina);
        let l3 = stat_line("Speech Power"@, stats.speech_power);
        let l4 = stat_line("Guts"@, stats.guts);
        let l5 = stat_line("Intellect"@, stats.intellect);
        assert(out@ == start + l1 + l2 + l3 + l4 + l5);
        assert(start + l1 + l2 + l3 + l4 + l5 =~= start + (l1 + l2 + l3 + l4 + l5));
    }
}

/// The lines made so far and the line being filled, after reading `text`: a line is
/// closed when it holds `width` characters and another one arrives.
pub open spec fn wrap_state(text: Seq<char>, width: nat) -> (Seq<Seq<char>>, Seq<char>)
    decreases text.len(),
{
    if text.len() == 0 {
        (seq![], seq![])
    } else {
        let prev = wrap_state(text.drop_last(), width);
        if prev.1.len() >= width {
            (prev.0.push(prev.1), seq![text.last()])
        } else {
            (prev.0, prev.1.push(text.last()))
        }
    }
}

/// `text` cut into lines of `width` characters, the last one possibly shorter.
pub open spec fn wrapped(text: Seq<char>, width: nat) -> Seq<Seq<char>> {
    let st = wrap_state(text, width);
    if st.1.len() > 0 { st.0.push(st.1) } else { st.0 }
}

/// Cuts text into lines of at most `width` characters.
pub fn wrap_text(text: &str, width: usize) -> (lines: Vec<String>)
    ensures
        lines@.map_values(|l: String| l@) == wrapped(text@, width as nat),
{
    let mut lines: Vec<String> = Vec::new();
    let mut current = String::new();
    let mut current_len: usize = 0;
    let n = text.unicode_len();
    let mut i: usize = 0;
    while i < n
        invariant
            n == text@.len(),
            i <= n,
            current_len == current@.len(),
            (lines@.map_values(|l: String| l@), current@) == wrap_state(text@.take(i as int), width as nat),
        decreases n - i,
    {
        let ch = text.get_char(i);
        let ghost prefix = text@.take(i as int + 1);
        assert(prefix.drop_last() =~= text@.take(i as int));
        if current_len >= width {
            let mut done = String::new();
            std::mem::swap(&mut done, &mut current);
            let ghost before = lines@;
            lines.push(done);
            assert(lines@.map_values(|l: String| l@) =~= before.map_values(|l: String| l@).push(done@));
            current_len = 0;
        }
        push_char(&mut current, ch);
        current_len = current_len + 1;
        i = i + 1;
    }
    assert(text@.take(n as int) =~= text@);
    if current_len > 0 {
        let ghost before = lines@;
        lines.push(current);
        assert(lines@.map_values(|l: String| l@) =~= before.map_values(|l: String| l@).push(current@));
    }
    lines
}

/// All lines glued together.
pub open spec fn concat_lines(lines: Seq<Seq<char>>) -> Seq<char>
    decreases lines.len(),
{
    if lines.len() == 0 { seq![] } else { concat_lines(lines.drop_last()) + lines.last() }
}

proof fn lemma_wrap_state(text: Seq<char>, width: nat)
    requires
        width >= 1,
    ensures
        concat_lines(wrap_state(text, width).0) + wrap_state(text, width).1 == text,
        forall|k: int| 0 <= k < wrap_state(text, width).0.len() ==> #[trigger] wrap_state(text, width).0[k].len() <= width,
        wrap_state(text, width).1.len() <= width,
        text.len() > 0 ==> wrap_state(text, width).1.len() > 0,
    decreases text.len(),
{
    if text.len() > 0 {
        let prev = wrap_state(text.drop_last(), width);
        lemma_wrap_state(text.drop_last(), width);
        if prev.1.len() >= width {
            let lines = prev.0.push(prev.1);
            assert(lines.drop_last() =~= prev.0);
            assert(concat_lines(lines) + seq![text.last()] =~= text);
        } else {
            assert(text.drop_last().push(text.last()) =~= text);
            assert((concat_lines(prev.0) + prev.1).push(text.last()) =~= concat_lines(prev.0) + prev.1.push(text.last()));
        }
    }
}

/// Wrapping loses no character and makes no line longer than the width.
pub proof fn lemma_wrap_keeps_text(text: Seq<char>, width: nat)
    requires
        width >= 1,
    ensures
        concat_lines(wrapped(text, width)) == text,
        forall|k: int| 0 <= k < wrapped(text, width).len() ==> #[trigger] wrapped(text, width)[k].len() <= width,
{
    lemma_wrap_state(text, width);
    let st = wrap_state(text, width);
    if st.1.len() > 0 {
        let lines = st.0.push(st.1);
        assert(lines.drop_last() =~= st.0);
    } else {
        assert(st.1 =~= Seq::<char>::empty());
        assert(concat_lines(st.0) + st.1 =~= concat_lines(st.0));
    }
}

} // verus!
