//! Lists written as one comma-separated value.

use vstd::prelude::*;
use vstd::string::*;

verus! {

/// The pieces joined back together, with a comma between each two.
pub open spec fn join_commas(parts: Seq<Seq<char>>) -> Seq<char>
    decreases parts.len(),
{
    if parts.len() == 0 {
        Seq::empty()
    } else if parts.len() == 1 {
        parts[0]
    } else {
        join_commas(parts.drop_last()) + seq![','] + parts.last()
    }
}

/// Whether no piece holds a comma.
pub open spec fn comma_free(parts: Seq<Seq<char>>) -> bool {
    forall|i: int, j: int| 0 <= i < parts.len() && 0 <= j < parts[i].len() ==> #[trigger] parts[i][j] != ','
}

/// Split a value at each comma. The pieces hold no comma, there is one more
/// piece than there are commas, and joined with commas they give the value.
pub fn split_comma_separated(value: &str) -> (r: Vec<String>)
    ensures
        r.len() >= 1,
        comma_free(r.deep_view()),
        join_commas(r.deep_view()) == value@,
{
    let n = value.unicode_len();
    let mut parts: Vec<String> = Vec::new();
    let mut start: usize = 0;
    let mut i: usize = 0;
    while i < n
        invariant
            n == value@.len(),
            start <= i <= n,
            comma_free(parts.deep_view()),
            forall|k: int| start <= k < i ==> value@[k] != ',',
            parts.len() == 0 ==> start == 0,
            parts.len() > 0 ==> join_commas(parts.deep_view()) + seq![','] == value@.subrange(
                0,
                start as int,
            ),
        decreases n - i,
    {
        if value.get_char(i) == ',' {
            let piece = value.substring_char(start, i);
            let ghost before = parts.deep_view();
            parts.push(String::from_str(piece));
            let ghost after = parts.deep_view();
            assert(after =~= before.push(piece@));
            assert(after.drop_last() =~= before);
            proof {
                if before.len() == 0 {
                    assert(join_commas(after) == piece@);
                    assert(value@.subrange(0, i + 1) =~= piece@ + seq![',']);
                } else {
                    assert(value@.subrange(0, i + 1) =~= value@.subrange(0, start as int) + piece@
                        + seq![',']);
                }
                assert(join_commas(after) + seq![','] =~= value@.subrange(0, i + 1));
            }
            start = i + 1;
        }
        i = i + 1;
    }
    let last = value.substring_char(start, n);
    let ghost before = parts.deep_view();
    parts.push(String::from_str(last));
    let ghost after = parts.deep_view();
    assert(after =~= before.push(last@));
    assert(after.drop_last() =~= before);
    proof {
        if before.len() == 0 {
            assert(last@ =~= value@);
        } else {
            assert(join_commas(after) =~= value@.subrange(0, start as int) + last@);
            assert(value@.subrange(0, start as int) + last@ =~= value@);
        }
    }
    parts
}

} // verus!
