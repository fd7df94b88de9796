//! Joining of text fragments with a separator.
use vstd::prelude::*;

verus! {

/// The fragments of `parts`, in order, with `sep` between neighbours.
///
/// Nothing is put before the first fragment or after the last one, so the
/// join of no fragments is empty and the join of one fragment is that
/// fragment.
pub open spec fn joined(parts: Seq<Seq<char>>, sep: Seq<char>) -> Seq<char>
    decreases parts.len(),
{
    if parts.len() == 0 {
        Seq::empty()
    } else if parts.len() == 1 {
        parts[0]
    } else {
        joined(parts.drop_last(), sep) + sep + parts.last()
    }
}

/// The views of the strings of `items`, in order.
pub open spec fn views(items: Seq<String>) -> Seq<Seq<char>> {
    Seq::new(items.len(), |i: int| items[i]@)
}

/// Joins `items` with `sep` between neighbours.
pub fn join(items: &Vec<String>, sep: &str) -> (out: String)
    ensures
        out@ == joined(views(items@), sep@),
{
    let mut out = String::new();
    let mut i: usize = 0;
    while i < items.len()
        invariant
            i <= items.len(),
            out@ == joined(views(items@).take(i as int), sep@),
        decreases items.len() - i,
    {
        let ghost before = views(items@).take(i as int);
        let ghost after = views(items@).take(i + 1);
        proof {
            assert(after.drop_last() =~= before);
            assert(after.last() == items@[i as int]@);
        }
        if i > 0 {
            out.append(sep);
        }
        out.append(items[i].as_str());
        proof {
            if i == 0 {
                assert(before =~= Seq::<Seq<char>>::empty());
                assert(out@ =~= after[0]);
            } else {
                assert(out@ =~= joined(before, sep@) + sep@ + after.last());
            }
        }
        i += 1;
    }
    proof {
        assert(views(items@).take(items.len() as int) =~= views(items@));
    }
    out
}

/// Joining keeps the order of the fragments: the join of one list followed
/// by another is the join of the first, the separator, and the join of the
/// second.
pub proof fn law_joined_concat(front: Seq<Seq<char>>, back: Seq<Seq<char>>, sep: Seq<char>)
    requires
        front.len() > 0,
        back.len() > 0,
    ensures
        joined(front + back, sep) == joined(front, sep) + sep + joined(back, sep),
    decreases back.len(),
{
    let whole = front + back;
    assert(whole.drop_last() =~= front + back.drop_last());
    assert(whole.last() == back.last());
    if back.len() == 1 {
        assert(front + back.drop_last() =~= front);
        assert(joined(whole, sep) =~= joined(front, sep) + sep + joined(back, sep));
    } else {
        law_joined_concat(front, back.drop_last(), sep);
        assert(joined(whole, sep) =~= joined(front, sep) + sep + joined(back, sep));
    }
}

/// Whether `c` is a character that a query holds as it is: an ASCII letter
/// or digit, or one of `*`, `-`, `.` and `_`.
pub open spec fn is_plain_char(c: char) -> bool {
    ||| 'a' <= c <= 'z'
    ||| 'A' <= c <= 'Z'
    ||| '0' <= c <= '9'
    ||| c == '*'
    ||| c == '-'
    ||| c == '.'
    ||| c == '_'
}

/// Whether `text` consists of characters that a query holds as they are.
pub open spec fn is_plain(text: Seq<char>) -> bool {
    forall|i: int| 0 <= i < text.len() ==> is_plain_char(#[trigger] text[i])
}

} // verus!
