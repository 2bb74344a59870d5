//! Rendering of message templates: every occurrence of the named slot
//! `{error}` in a template is replaced by the failure's text.

use vstd::prelude::*;

verus! {

/// Whether the named slot `{error}` starts at position `i` of `t`.
pub open spec fn slot_at(t: Seq<char>, i: int) -> bool {
    &&& 0 <= i
    &&& i + 7 <= t.len()
    &&& t[i] == '{'
    &&& t[i + 1] == 'e'
    &&& t[i + 2] == 'r'
    &&& t[i + 3] == 'r'
    &&& t[i + 4] == 'o'
    &&& t[i + 5] == 'r'
    &&& t[i + 6] == '}'
}

/// The template with every occurrence of the slot `{error}` replaced by
/// `err`, scanning left to right. Text that is not a slot is kept as it
/// stands; nothing in `err` is scanned again.
pub open spec fn rendered(template: Seq<char>, err: Seq<char>) -> Seq<char>
    decreases template.len(),
{
    if template.len() == 0 {
        Seq::empty()
    } else if slot_at(template, 0) {
        err + rendered(template.skip(7), err)
    } else {
        seq![template[0]] + rendered(template.skip(1), err)
    }
}

proof fn lemma_slot_at_shift(t: Seq<char>, i: int)
    requires
        0 <= i <= t.len(),
    ensures
        slot_at(t.skip(i), 0) == slot_at(t, i),
{
    let tail = t.skip(i);
    if i + 7 <= t.len() {
        assert(tail[0] == t[i]);
        assert(tail[1] == t[i + 1]);
        assert(tail[2] == t[i + 2]);
        assert(tail[3] == t[i + 3]);
        assert(tail[4] == t[i + 4]);
        assert(tail[5] == t[i + 5]);
        assert(tail[6] == t[i + 6]);
    }
}

/// Checks for the slot `{error}` at character position `i`.
fn slot_at_exec(template: &str, i: usize, n: usize) -> (b: bool)
    requires
        n == template@.len(),
        i < n,
    ensures
        b == slot_at(template@, i as int),
{
    if n - i < 7 {
        return false;
    }
    template.get_char(i) == '{' && template.get_char(i + 1) == 'e' && template.get_char(i + 2)
        == 'r' && template.get_char(i + 3) == 'r' && template.get_char(i + 4) == 'o'
        && template.get_char(i + 5) == 'r' && template.get_char(i + 6) == '}'
}

/// Replaces every occurrence of the slot `{error}` in the template with the
/// failure's text.
pub fn render(template: &str, err: &str) -> (r: String)
    ensures
        r@ == rendered(template@, err@),
{
    let n = template.unicode_len();
    let mut r = String::new();
    let mut i: usize = 0;
    proof {
        assert(template@.skip(0) =~= template@);
        assert(Seq::<char>::empty() + rendered(template@, err@) =~= rendered(template@, err@));
    }
    while i < n
        invariant
            n == template@.len(),
            i <= n,
            rendered(template@, err@) == r@ + rendered(template@.skip(i as int), err@),
        decreases n - i,
    {
        let ghost prev = r@;
        let ghost tail = template@.skip(i as int);
        proof {
            lemma_slot_at_shift(template@, i as int);
        }
        if slot_at_exec(template, i, n) {
            r.append(err);
            i = i + 7;
            proof {
                let rest = rendered(template@.skip(i as int), err@);
                assert(tail.skip(7) =~= template@.skip(i as int));
                assert(rendered(tail, err@) == err@ + rest);
                assert((prev + err@) + rest =~= prev + (err@ + rest));
            }
        } else {
            let piece = template.substring_char(i, i + 1);
            proof {
                assert(tail[0] == template@[i as int]);
                assert(piece@ =~= seq![template@[i as int]]);
            }
            r.append(piece);
            i = i + 1;
            proof {
                let rest = rendered(template@.skip(i as int), err@);
                assert(tail.skip(1) =~= template@.skip(i as int));
                assert(rendered(tail, err@) == seq![tail[0]] + rest);
                assert((prev + piece@) + rest =~= prev + (piece@ + rest));
            }
        }
    }
    proof {
        assert(rendered(template@.skip(n as int), err@) == Seq::<char>::empty());
        assert(r@ + Seq::<char>::empty() =~= r@);
    }
    r
}

} // verus!
