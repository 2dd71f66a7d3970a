//! Cursors of paginated, shard-aware scans.
use vstd::prelude::*;
use vstd::string::*;
use crate::ids::sole_index_of;
use crate::text::{
    chars_of, decimal, digit_value, lemma_decimal_digits, lemma_decimal_parses, parse_unsigned,
    parse_unsigned_chars, push_char, push_decimal, sub_chars,
};

verus! {

/// Where a scan goes on: a storage layer and a cursor within it. A cursor of
/// zero means the scan is done.
#[derive(Clone, Copy, Debug, PartialEq, Eq, Default, Structural)]
pub struct ScanCursor {
    pub cursor: u64,
    pub layer: usize,
}

/// `<layer>/<cursor>`
pub open spec fn cursor_text(c: ScanCursor) -> Seq<char> {
    decimal(c.layer as nat).push('/') + decimal(c.cursor as nat)
}

/// What the text `<layer>/<cursor>` holds: exactly one `/`, with an unsigned
/// number on each side.
pub open spec fn parse_cursor(s: Seq<char>) -> Option<ScanCursor> {
    if exists|i: int| sole_index_of(s, '/', i) {
        let i = choose|i: int| sole_index_of(s, '/', i);
        match (
            parse_unsigned(s.subrange(0, i), usize::MAX as nat),
            parse_unsigned(s.subrange(i + 1, s.len() as int), u64::MAX as nat),
        ) {
            (Ok(l), Ok(c)) => Some(ScanCursor { cursor: c as u64, layer: l as usize }),
            _ => None,
        }
    } else {
        None
    }
}

impl ScanCursor {
    pub fn is_finished(&self) -> (r: bool)
        ensures
            r == (self.cursor == 0),
    {
        self.cursor == 0
    }

    pub fn to_string(&self) -> (r: String)
        ensures
            r@ == cursor_text(*self),
    {
        let mut s = String::new();
        push_decimal(&mut s, self.layer as u64);
        push_char(&mut s, '/');
        push_decimal(&mut s, self.cursor);
        assert(s@ == cursor_text(*self));
        s
    }

    /// Reads `<layer>/<cursor>`.
    pub fn parse(s: &str) -> (r: Result<ScanCursor, String>)
        ensures
            match parse_cursor(s@) {
                Some(c) => r == Ok::<ScanCursor, String>(c),
                None => r is Err,
            },
    {
        let cs = chars_of(s);
        let mut count: usize = 0;
        let mut at: usize = 0;
        let mut k: usize = 0;
        while k < cs.len()
            invariant
                cs@ == s@,
                k <= cs@.len(),
                count <= 2,
                count == 0 ==> forall|j: int| 0 <= j < k ==> cs@[j] != '/',
                count == 1 ==> at < k && cs@[at as int] == '/' && forall|j: int|
                    0 <= j < k && j != at ==> cs@[j] != '/',
                count == 2 ==> !(exists|i: int| sole_index_of(s@, '/', i)),
            decreases cs@.len() - k,
        {
            if cs[k] == '/' {
                if count == 1 {
                    assert forall|i: int| !sole_index_of(s@, '/', i) by {
                        if sole_index_of(s@, '/', i) {
                            assert(i == at as int || i == k as int);
                        }
                    }
                }
                if count < 2 {
                    count = count + 1;
                }
                at = if count == 1 { k } else { at };
            }
            k = k + 1;
        }
        if count != 1 {
            assert(!(exists|i: int| sole_index_of(s@, '/', i))) by {
                if count == 0 {
                    assert forall|i: int| !sole_index_of(s@, '/', i) by {}
                }
            }
            return Err(String::from_str("Invalid cursor, must have 'layer/cursor' format"));
        }
        assert(sole_index_of(s@, '/', at as int));
        assert forall|i: int| sole_index_of(s@, '/', i) implies i == at by {}
        let head = sub_chars(&cs, 0, at);
        let tail = sub_chars(&cs, at + 1, cs.len());
        let layer = match parse_unsigned_chars(&head, usize::MAX as u64) {
            Ok(v) => v as usize,
            Err(e) => {
                let mut m = String::from_str("Invalid layer part: ");
                let text = e.message();
                m.append(text.as_str());
                return Err(m);
            },
        };
        let cursor = match parse_unsigned_chars(&tail, u64::MAX) {
            Ok(v) => v,
            Err(e) => {
                let mut m = String::from_str("Invalid cursor part: ");
                let text = e.message();
                m.append(text.as_str());
                return Err(m);
            },
        };
        Ok(ScanCursor { cursor, layer })
    }
}

impl std::str::FromStr for ScanCursor {
    type Err = String;

    fn from_str(s: &str) -> Result<ScanCursor, String> {
        ScanCursor::parse(s)
    }
}

/// A cursor's text reads back as the same cursor.
pub proof fn cursor_text_round_trip(c: ScanCursor)
    ensures
        parse_cursor(cursor_text(c)) == Some(c),
{
    let t = cursor_text(c);
    let head = decimal(c.layer as nat);
    let tail = decimal(c.cursor as nat);
    let i = head.len() as int;
    lemma_decimal_digits(c.layer as nat);
    lemma_decimal_digits(c.cursor as nat);
    assert forall|j: int| 0 <= j < t.len() && j != i implies t[j] != '/' by {
        if j < i {
            assert(t[j] == head[j]);
            assert(digit_value(head[j]) is Some);
        } else {
            assert(t[j] == tail[j - i - 1]);
            assert(digit_value(tail[j - i - 1]) is Some);
        }
    }
    assert(sole_index_of(t, '/', i));
    assert forall|k: int| sole_index_of(t, '/', k) implies k == i by {}
    assert(t.subrange(0, i) == head);
    assert(t.subrange(i + 1, t.len() as int) == tail);
    lemma_decimal_parses(c.layer as nat, usize::MAX as nat);
    lemma_decimal_parses(c.cursor as nat, u64::MAX as nat);
}

} // verus!
