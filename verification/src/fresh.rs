//! Names that a table does not hold yet: a drawn identifier is kept when it
//! is new, and otherwise replaced by the first new name of a fixed form.
use vstd::prelude::*;
use vstd::set_lib::lemma_len_subset;
use vstd::string::{StrSliceExecFns, StringExecFns};

use crate::models::texts;

verus! {

/// The characters names are spelled with: `A`..`Z`, then `0`..`9`.
pub open spec fn base36() -> Seq<char> {
    "ABCDEFGHIJKLMNOPQRSTUVWXYZ0123456789"@
}

/// The code of the character at position `i` of [`base36`].
pub open spec fn base36_code(i: int) -> int {
    if i < 26 {
        65 + i
    } else {
        22 + i
    }
}

/// `36` to the power `w`.
pub open spec fn pow36(w: nat) -> nat
    decreases w,
{
    if w == 0 {
        1
    } else {
        36 * pow36((w - 1) as nat)
    }
}

/// `k` written with `w` digits of [`base36`], most significant first.
pub open spec fn digits(k: nat, w: nat) -> Seq<char>
    decreases w,
{
    if w == 0 {
        Seq::empty()
    } else {
        digits(k / 36, (w - 1) as nat).push(base36()[(k % 36) as int])
    }
}

/// Each character of [`base36`] has its own code.
pub proof fn lemma_base36()
    ensures
        base36().len() == 36,
        forall|i: int| 0 <= i < 36 ==> (#[trigger] base36()[i]) as u32 == base36_code(i),
{
    reveal_strlit("ABCDEFGHIJKLMNOPQRSTUVWXYZ0123456789");
    assert forall|i: int| 0 <= i < 36 implies (#[trigger] base36()[i]) as u32 == base36_code(i) by {
        assert(i == 0 || i == 1 || i == 2 || i == 3 || i == 4 || i == 5 || i == 6 || i == 7 || i == 8
            || i == 9 || i == 10 || i == 11 || i == 12 || i == 13 || i == 14 || i == 15 || i == 16
            || i == 17 || i == 18 || i == 19 || i == 20 || i == 21 || i == 22 || i == 23 || i == 24
            || i == 25 || i == 26 || i == 27 || i == 28 || i == 29 || i == 30 || i == 31 || i == 32
            || i == 33 || i == 34 || i == 35);
    }
}

/// Digits have the given width and are characters of [`base36`].
pub proof fn lemma_digits_shape(k: nat, w: nat)
    ensures
        digits(k, w).len() == w,
        forall|i: int| 0 <= i < w ==> base36().contains(#[trigger] digits(k, w)[i]),
    decreases w,
{
    if w > 0 {
        lemma_base36();
        lemma_digits_shape(k / 36, (w - 1) as nat);
        let d = digits(k, w);
        assert forall|i: int| 0 <= i < w implies base36().contains(#[trigger] d[i]) by {
            if i < w - 1 {
                assert(d[i] == digits(k / 36, (w - 1) as nat)[i]);
            } else {
                assert(d[i] == base36()[(k % 36) as int]);
            }
        }
    }
}

/// Numbers below `36^w` have different digits.
pub proof fn lemma_digits_injective(a: nat, b: nat, w: nat)
    requires
        a < pow36(w),
        b < pow36(w),
        digits(a, w) == digits(b, w),
    ensures
        a == b,
    decreases w,
{
    if w > 0 {
        lemma_base36();
        let p = pow36((w - 1) as nat);
        let da = digits(a, w);
        let db = digits(b, w);
        assert(da.last() == db.last());
        assert(base36()[(a % 36) as int] as u32 == base36()[(b % 36) as int] as u32);
        assert(a % 36 == b % 36);
        assert(da.drop_last() =~= digits(a / 36, (w - 1) as nat));
        assert(db.drop_last() =~= digits(b / 36, (w - 1) as nat));
        assert(a / 36 < p) by (nonlinear_arith)
            requires
                a < 36 * p,
        ;
        assert(b / 36 < p) by (nonlinear_arith)
            requires
                b < 36 * p,
        ;
        lemma_digits_injective(a / 36, b / 36, (w - 1) as nat);
        assert(a == 36 * (a / 36) + a % 36);
        assert(b == 36 * (b / 36) + b % 36);
    }
}

/// The name numbered `k`: `prefix` followed by `k` in `w` digits.
pub open spec fn numbered_name(prefix: Seq<char>, k: nat, w: nat) -> Seq<char> {
    prefix + digits(k, w)
}

/// `k` in `w` digits of [`base36`].
fn digits_text(k: u128, w: usize) -> (r: String)
    ensures
        r@ == digits(k as nat, w as nat),
    decreases w,
{
    if w == 0 {
        String::new()
    } else {
        let mut r = digits_text(k / 36, w - 1);
        let charset: &str = "ABCDEFGHIJKLMNOPQRSTUVWXYZ0123456789";
        proof {
            reveal_strlit("ABCDEFGHIJKLMNOPQRSTUVWXYZ0123456789");
        }
        let d: usize = (k % 36) as usize;
        let piece = charset.substring_char(d, d + 1);
        let ghost before = r@;
        r.append(piece);
        proof {
            assert(piece@.len() == 1);
            assert(r@ =~= before.push(base36()[d as int]));
        }
        r
    }
}

/// Whether `t` is among `taken`.
pub fn holds_text(taken: &Vec<String>, t: &str) -> (r: bool)
    ensures
        r == texts(taken@).contains(t@),
{
    let mut i: usize = 0;
    while i < taken.len()
        invariant
            i <= taken@.len(),
            forall|j: int| 0 <= j < i ==> (#[trigger] taken@[j])@ != t@,
        decreases taken@.len() - i,
    {
        if crate::text::same_text(taken[i].as_str(), t) {
            assert(texts(taken@)[i as int] == t@);
            return true;
        }
        i = i + 1;
    }
    proof {
        if texts(taken@).contains(t@) {
            let j = choose|j: int| 0 <= j < texts(taken@).len() && texts(taken@)[j] == t@;
            assert(taken@[j]@ == t@);
        }
    }
    false
}

/// More distinct names than `taken` holds cannot all be among `taken`.
proof fn lemma_pigeonhole(names: Seq<Seq<char>>, taken: Seq<Seq<char>>)
    requires
        names.no_duplicates(),
        forall|i: int| 0 <= i < names.len() ==> taken.contains(#[trigger] names[i]),
    ensures
        names.len() <= taken.len(),
{
    names.unique_seq_to_set();
    taken.lemma_cardinality_of_set();
    vstd::seq_lib::seq_to_set_is_finite(taken);
    assert(names.to_set().subset_of(taken.to_set())) by {
        assert forall|x: Seq<char>| names.to_set().contains(x) implies taken.to_set().contains(x) by {
            let i = choose|i: int| 0 <= i < names.len() && names[i] == x;
            assert(taken.contains(names[i]));
        }
    }
    lemma_len_subset(names.to_set(), taken.to_set());
}

/// The first name `prefix` + `k` in `w` digits that `taken` does not hold.
/// There is one among the first `taken.len() + 1` numbers, as those names
/// are all different.
pub fn first_free_name(prefix: &str, w: usize, taken: &Vec<String>) -> (r: String)
    requires
        taken@.len() < pow36(w as nat),
        pow36(w as nat) <= u128::MAX,
    ensures
        !texts(taken@).contains(r@),
        exists|k: nat| k < pow36(w as nat) && r@ == #[trigger] numbered_name(prefix@, k, w as nat),
{
    let n: usize = taken.len();
    let mut k: u128 = 0;
    while k <= n as u128
        invariant
            n == taken@.len(),
            n < pow36(w as nat),
            pow36(w as nat) <= u128::MAX,
            k <= n + 1,
            forall|j: nat| j < k ==> texts(taken@).contains(#[trigger] numbered_name(prefix@, j, w as nat)),
        decreases n + 1 - k,
    {
        let ds = digits_text(k, w);
        let mut name = prefix.to_owned();
        name.append(ds.as_str());
        if !holds_text(taken, name.as_str()) {
            assert(name@ == numbered_name(prefix@, k as nat, w as nat));
            return name;
        }
        assert(name@ == numbered_name(prefix@, k as nat, w as nat));
        k = k + 1;
    }
    proof {
        let names = Seq::new((n + 1) as nat, |j: int| numbered_name(prefix@, j as nat, w as nat));
        assert(names.no_duplicates()) by {
            assert forall|i: int, j: int| 0 <= i < names.len() && 0 <= j < names.len() && i != j implies names[i]
                != names[j] by {
                if names[i] == names[j] {
                    let di = digits(i as nat, w as nat);
                    let dj = digits(j as nat, w as nat);
                    assert(di =~= names[i].subrange(prefix@.len() as int, names[i].len() as int));
                    assert(dj =~= names[j].subrange(prefix@.len() as int, names[j].len() as int));
                    lemma_digits_injective(i as nat, j as nat, w as nat);
                }
            }
        }
        assert forall|i: int| 0 <= i < names.len() implies texts(taken@).contains(#[trigger] names[i]) by {
            assert(texts(taken@).contains(numbered_name(prefix@, i as nat, w as nat)));
        }
        lemma_pigeonhole(names, texts(taken@));
    }
    String::new()
}

/// `drawn` if `taken` does not hold it, else the first free numbered name
/// (see [`first_free_name`]).
pub fn keep_or_renumber(drawn: String, prefix: &str, w: usize, taken: &Vec<String>) -> (r: String)
    requires
        taken@.len() < pow36(w as nat),
        pow36(w as nat) <= u128::MAX,
    ensures
        !texts(taken@).contains(r@),
        !texts(taken@).contains(drawn@) ==> r@ == drawn@,
        texts(taken@).contains(drawn@) ==> exists|k: nat|
            k < pow36(w as nat) && r@ == #[trigger] numbered_name(prefix@, k, w as nat),
{
    if holds_text(taken, drawn.as_str()) {
        first_free_name(prefix, w, taken)
    } else {
        drawn
    }
}

/// `36^13`, more than any number of rows a table can hold.
pub proof fn lemma_pow36_13()
    ensures
        pow36(13) == 170581728179578208256nat,
        pow36(6) == 2176782336nat,
{
    reveal_with_fuel(pow36, 14);
}

} // verus!
