//! Typed SQL values carried by rows, and the rowtime timestamp.

use vstd::prelude::*;

use crate::error::SpringError;

verus! {

/// Mathematical model of a [`SqlValue`].
pub enum ValModel {
    Null,
    Int { v: int },
    Text { s: Seq<char> },
    Ts { t: Seq<char> },
}

/// True of an ASCII decimal digit.
pub open spec fn is_digit_char(c: char) -> bool {
    ('0' as u32) <= (c as u32) && (c as u32) <= ('9' as u32)
}

/// What the character at position `i` of a well-formed timestamp text must be.
///
/// The canonical shape is `YYYY-MM-DD hh:mm:ss.nnnnnnnnn`: 29 characters,
/// digits everywhere but the fixed separators. Lexicographic order of texts
/// of this shape coincides with chronological order.
pub open spec fn timestamp_char_ok(s: Seq<char>, i: int) -> bool {
    if i == 4 || i == 7 {
        s[i] == '-'
    } else if i == 10 {
        s[i] == ' '
    } else if i == 13 || i == 16 {
        s[i] == ':'
    } else if i == 19 {
        s[i] == '.'
    } else {
        is_digit_char(s[i])
    }
}

/// True of a text in the canonical timestamp shape.
pub open spec fn timestamp_shape(s: Seq<char>) -> bool {
    s.len() == 29 && (forall|i: int| 0 <= i < 29 ==> #[trigger] timestamp_char_ok(s, i))
}

/// The event timestamp of a row, kept in its canonical 29-character text form.
#[derive(Debug)]
pub struct SpringTimestamp {
    pub repr: String,
}

impl View for SpringTimestamp {
    type V = Seq<char>;

    open spec fn view(&self) -> Seq<char> {
        self.repr@
    }
}

impl SpringTimestamp {
    /// Well-formedness: the text has the canonical shape.
    pub open spec fn wf(&self) -> bool {
        timestamp_shape(self@)
    }

    /// Accepts exactly the texts of the canonical shape.
    ///
    /// # Failures
    ///
    /// - `SpringError::Sql` when `s` is not in the canonical shape.
    pub fn parse(s: String) -> (r: Result<SpringTimestamp, SpringError>)
        ensures
            match r {
                Ok(t) => timestamp_shape(s@) && t@ == s@,
                Err(e) => !timestamp_shape(s@) && e matches SpringError::Sql { .. },
            },
    {
        if check_timestamp_text(s.as_str()) {
            Ok(SpringTimestamp { repr: s })
        } else {
            Err(SpringError::Sql { msg: "not a timestamp text".to_owned() })
        }
    }

    pub fn eq_ts(&self, other: &Self) -> (r: bool)
        ensures
            r == (self@ == other@),
    {
        self.repr == other.repr
    }
}

impl Clone for SpringTimestamp {
    fn clone(&self) -> (r: Self)
        ensures
            r == *self,
    {
        SpringTimestamp { repr: self.repr.clone() }
    }
}

impl PartialEq for SpringTimestamp {
    fn eq(&self, other: &Self) -> (r: bool) {
        self.repr == other.repr
    }
}

impl vstd::std_specs::cmp::PartialEqSpecImpl for SpringTimestamp {
    open spec fn obeys_eq_spec() -> bool {
        true
    }

    open spec fn eq_spec(&self, other: &Self) -> bool {
        self.repr@ == other.repr@
    }
}

/// Checks a text against the canonical timestamp shape.
pub fn check_timestamp_text(s: &str) -> (r: bool)
    ensures
        r == timestamp_shape(s@),
{
    let n = s.unicode_len();
    if n != 29 {
        return false;
    }
    let mut i: usize = 0;
    while i < 29
        invariant
            s@.len() == 29,
            i <= 29,
            forall|j: int| 0 <= j < i ==> #[trigger] timestamp_char_ok(s@, j),
        decreases 29 - i,
    {
        let c = s.get_char(i);
        let ok: bool = if i == 4 || i == 7 {
            c == '-'
        } else if i == 10 {
            c == ' '
        } else if i == 13 || i == 16 {
            c == ':'
        } else if i == 19 {
            c == '.'
        } else {
            ('0' as u32) <= (c as u32) && (c as u32) <= ('9' as u32)
        };
        if !ok {
            assert(!timestamp_char_ok(s@, i as int));
            return false;
        }
        assert(timestamp_char_ok(s@, i as int));
        i += 1;
    }
    true
}

/// A typed value of a row column.
#[derive(Debug)]
pub enum SqlValue {
    /// SQL NULL.
    Null,
    /// INTEGER (64-bit signed).
    Integer { v: i64 },
    /// TEXT.
    Text { s: String },
    /// TIMESTAMP, usable as a rowtime.
    Timestamp { t: SpringTimestamp },
}

impl View for SqlValue {
    type V = ValModel;

    open spec fn view(&self) -> ValModel {
        match *self {
            SqlValue::Null => ValModel::Null,
            SqlValue::Integer { v } => ValModel::Int { v: v as int },
            SqlValue::Text { s } => ValModel::Text { s: s@ },
            SqlValue::Timestamp { t } => ValModel::Ts { t: t@ },
        }
    }
}

impl SqlValue {
    pub fn eq_value(&self, other: &Self) -> (r: bool)
        ensures
            r == (self@ == other@),
    {
        match (self, other) {
            (SqlValue::Null, SqlValue::Null) => true,
            (SqlValue::Integer { v: a }, SqlValue::Integer { v: b }) => *a == *b,
            (SqlValue::Text { s: a }, SqlValue::Text { s: b }) => *a == *b,
            (SqlValue::Timestamp { t: a }, SqlValue::Timestamp { t: b }) => a.eq_ts(b),
            _ => false,
        }
    }
}

impl Clone for SqlValue {
    fn clone(&self) -> (r: Self)
        ensures
            r == *self,
    {
        match self {
            SqlValue::Null => SqlValue::Null,
            SqlValue::Integer { v } => SqlValue::Integer { v: *v },
            SqlValue::Text { s } => SqlValue::Text { s: s.clone() },
            SqlValue::Timestamp { t } => SqlValue::Timestamp { t: t.clone() },
        }
    }
}

impl PartialEq for SqlValue {
    fn eq(&self, other: &Self) -> (r: bool) {
        self.eq_value(other)
    }
}

impl vstd::std_specs::cmp::PartialEqSpecImpl for SqlValue {
    open spec fn obeys_eq_spec() -> bool {
        true
    }

    open spec fn eq_spec(&self, other: &Self) -> bool {
        self@ == other@
    }
}

/// Lexicographic order on texts, by character code. On texts of the
/// canonical timestamp shape this is exactly chronological order.
pub open spec fn text_lt(a: Seq<char>, b: Seq<char>) -> bool
    decreases a.len(),
{
    if b.len() == 0 {
        false
    } else if a.len() == 0 {
        true
    } else if (a[0] as u32) < (b[0] as u32) {
        true
    } else if (a[0] as u32) > (b[0] as u32) {
        false
    } else {
        text_lt(a.drop_first(), b.drop_first())
    }
}

proof fn lemma_text_lt_skip(a: Seq<char>, b: Seq<char>, i: int)
    requires
        0 <= i <= a.len(),
        i <= b.len(),
        forall|j: int| 0 <= j < i ==> a[j] == b[j],
    ensures
        text_lt(a, b) == text_lt(a.skip(i), b.skip(i)),
    decreases i,
{
    if i > 0 {
        assert(a.len() > 0 && b.len() > 0);
        assert(a[0] == b[0]);
        let ta = a.drop_first();
        let tb = b.drop_first();
        assert forall|j: int| 0 <= j < i - 1 implies ta[j] == tb[j] by {
            assert(ta[j] == a[j + 1]);
            assert(tb[j] == b[j + 1]);
        }
        lemma_text_lt_skip(ta, tb, i - 1);
        assert(ta.skip(i - 1) =~= a.skip(i));
        assert(tb.skip(i - 1) =~= b.skip(i));
    } else {
        assert(a.skip(0) =~= a);
        assert(b.skip(0) =~= b);
    }
}

impl SpringTimestamp {
    /// Strictly before `other` in event time (the canonical text shape
    /// makes lexicographic and chronological order coincide).
    pub fn lt_ts(&self, other: &Self) -> (r: bool)
        ensures
            r == text_lt(self@, other@),
    {
        let a = self.repr.as_str();
        let b = other.repr.as_str();
        let na = a.unicode_len();
        let nb = b.unicode_len();
        let mut i: usize = 0;
        while i < na && i < nb
            invariant
                a@ == self@,
                b@ == other@,
                na == a@.len(),
                nb == b@.len(),
                i <= na,
                i <= nb,
                forall|j: int| 0 <= j < i ==> a@[j] == b@[j],
            decreases na - i,
        {
            let ca = a.get_char(i);
            let cb = b.get_char(i);
            if (ca as u32) < (cb as u32) {
                proof {
                    lemma_text_lt_skip(a@, b@, i as int);
                    assert(a@.skip(i as int)[0] == ca);
                    assert(b@.skip(i as int)[0] == cb);
                }
                return true;
            }
            if (ca as u32) > (cb as u32) {
                proof {
                    lemma_text_lt_skip(a@, b@, i as int);
                    assert(a@.skip(i as int)[0] == ca);
                    assert(b@.skip(i as int)[0] == cb);
                }
                return false;
            }
            proof {
                assert(ca == cb);
            }
            i += 1;
        }
        proof {
            lemma_text_lt_skip(a@, b@, i as int);
            if i == na {
                assert(a@.skip(i as int).len() == 0);
            } else {
                assert(b@.skip(i as int).len() == 0);
            }
        }
        na < nb
    }
}

} // verus!
