//! Messages that clients are told.
use vstd::prelude::*;
use crate::api::context::LibinputContext;
use crate::text::{letters, string_of};

verus! {

pub const PRIORITY_DEBUG: u32 = 10;
pub const PRIORITY_INFO: u32 = 20;
pub const PRIORITY_ERROR: u32 = 30;

/// Whether a context wants messages of a priority.
pub fn is_logged(ctx: Option<&LibinputContext>, priority: u32) -> (logged: bool)
    ensures
        logged == (ctx matches Some(c) && c.log_priority <= priority),
{
    match ctx {
        Some(c) => c.log_priority <= priority,
        None => false,
    }
}

/// A text in which every percent sign is doubled, so that handlers that take
/// it for a format print it as it is.
pub open spec fn escaped(text: Seq<char>) -> Seq<char>
    decreases text.len(),
{
    if text.len() == 0 {
        text
    } else if text.last() == '%' {
        escaped(text.drop_last()).push('%').push('%')
    } else {
        escaped(text.drop_last()).push(text.last())
    }
}

/// A message as handlers get it: a line of its own. A message that holds a
/// zero character is not told.
pub fn log_line(message: &str) -> (line: Option<String>)
    ensures
        match line {
            Some(line) => !message@.contains('\0') && line@ == escaped(message@).push('\n'),
            None => message@.contains('\0'),
        },
{
    let chars = letters(message);
    let mut out: Vec<char> = Vec::new();
    let mut i: usize = 0;
    assert(chars@.take(0) =~= Seq::<char>::empty());
    while i < chars.len()
        invariant
            i <= chars.len(),
            chars@ == message@,
            out@ == escaped(chars@.take(i as int)),
            forall|j: int| 0 <= j < i ==> #[trigger] message@[j] != '\0',
        decreases chars.len() - i,
    {
        let c: char = chars[i];
        if c == '\0' {
            assert(message@[i as int] == '\0');
            return None;
        }
        proof {
            assert(chars@.take(i + 1).drop_last() =~= chars@.take(i as int));
        }
        if c == '%' {
            out.push('%');
        }
        out.push(c);
        i += 1;
    }
    assert(chars@.take(i as int) =~= message@);
    out.push('\n');
    Some(string_of(out.as_slice()))
}

/// A message without a percent sign is told as it is.
pub proof fn law_plain_messages_are_kept(text: Seq<char>)
    requires
        !text.contains('%'),
    ensures
        escaped(text) == text,
    decreases text.len(),
{
    if text.len() > 0 {
        let head = text.drop_last();
        assert(text[text.len() - 1] != '%') by {
            assert(text.contains(text[text.len() - 1]));
        }
        assert(!head.contains('%')) by {
            if head.contains('%') {
                let i = choose|i: int| 0 <= i < head.len() && head[i] == '%';
                assert(text[i] == '%');
            }
        }
        law_plain_messages_are_kept(head);
        assert(head.push(text.last()) =~= text);
    }
}

} // verus!
