use vstd::prelude::*;

verus! {

/// The characters of `s` with every `'.'` taken out, in order.
pub open spec fn without_points(s: Seq<char>) -> Seq<char>
    decreases s.len(),
{
    if s.len() == 0 {
        s
    } else if s.last() == '.' {
        without_points(s.drop_last())
    } else {
        without_points(s.drop_last()).push(s.last())
    }
}

/// `s` with all its leading `'0'` characters taken off.
pub open spec fn without_leading_zeros(s: Seq<char>) -> Seq<char>
    decreases s.len(),
{
    if s.len() > 0 && s[0] == '0' {
        without_leading_zeros(s.drop_first())
    } else {
        s
    }
}

/// What `remove_decimals` gives back for the characters `s`.
pub open spec fn removed_decimals(s: Seq<char>) -> Seq<char> {
    without_leading_zeros(without_points(s))
}

/// Appending a character to `s` appends it to `s` without its leading
/// zeros, unless `s` is all zeros and the character is a zero too.
proof fn lemma_without_leading_zeros_push(s: Seq<char>, c: char)
    ensures
        without_leading_zeros(s.push(c)) == if all_zeros(s) && c == '0' {
            Seq::<char>::empty()
        } else if all_zeros(s) {
            seq![c]
        } else {
            without_leading_zeros(s).push(c)
        },
    decreases s.len(),
{
    let t = s.push(c);
    if s.len() == 0 {
        assert(t.drop_first() =~= Seq::<char>::empty());
        assert(seq![c] =~= t);
        assert(t[0] == c);
        assert(without_leading_zeros(Seq::<char>::empty()) == Seq::<char>::empty());
        assert(all_zeros(s));
    } else if s[0] != '0' {
        assert(t[0] == s[0]);
        assert(!all_zeros(s));
    } else {
        assert(t[0] == '0');
        assert(t.drop_first() =~= s.drop_first().push(c));
        lemma_without_leading_zeros_push(s.drop_first(), c);
        assert(all_zeros(s) == all_zeros(s.drop_first())) by {
            if all_zeros(s.drop_first()) {
                assert forall|i: int| 0 <= i < s.len() implies s[i] == '0' by {
                    if i > 0 {
                        assert(s[i] == s.drop_first()[i - 1]);
                    }
                }
            }
            if all_zeros(s) {
                assert forall|i: int| 0 <= i < s.drop_first().len() implies s.drop_first()[i]
                    == '0' by {
                    assert(s.drop_first()[i] == s[i + 1]);
                }
            }
        }
    }
}

proof fn lemma_all_zeros_vanish(s: Seq<char>)
    requires
        all_zeros(s),
    ensures
        without_leading_zeros(s) == Seq::<char>::empty(),
    decreases s.len(),
{
    if s.len() > 0 {
        assert(all_zeros(s.drop_first())) by {
            assert forall|i: int| 0 <= i < s.drop_first().len() implies s.drop_first()[i]
                == '0' by {
                assert(s.drop_first()[i] == s[i + 1]);
            }
        }
        lemma_all_zeros_vanish(s.drop_first());
    }
}

/// Every character of `s` is `'0'`.
pub open spec fn all_zeros(s: Seq<char>) -> bool {
    forall|i: int| 0 <= i < s.len() ==> s[i] == '0'
}

/// Appends one character to a string.
#[verifier::external_body]
fn push_char(s: &mut String, c: char)
    ensures
        final(s)@ == old(s)@.push(c),
{
    s.push(c);
}

/// Takes a decimal number written as a string and removes every decimal
/// point and then every leading zero.
pub fn remove_decimals(decimal: String) -> (res: String)
    ensures
        res@ == removed_decimals(decimal@),
{
    let mut digits: String = String::new();
    let ghost chars = decimal@;
    for c in it: decimal.as_str().chars()
        invariant
            it.seq() == chars,
            digits@ == without_points(chars.take(it.index() as int)),
    {
        proof {
            assert(chars.take(it.index() + 1).drop_last() =~= chars.take(it.index() as int));
        }
        if c != '.' {
            push_char(&mut digits, c);
        }
    }
    proof {
        assert(chars.take(chars.len() as int) =~= chars);
    }
    let mut res: String = String::new();
    let mut leading = true;
    let ghost digit_chars = digits@;
    for c in it: digits.as_str().chars()
        invariant
            it.seq() == digit_chars,
            leading == all_zeros(digit_chars.take(it.index() as int)),
            res@ == without_leading_zeros(digit_chars.take(it.index() as int)),
            leading ==> res@ == Seq::<char>::empty(),
    {
        let ghost prefix = digit_chars.take(it.index() as int);
        let ghost was_leading = leading;
        proof {
            assert(digit_chars.take(it.index() + 1) =~= prefix.push(c));
            lemma_without_leading_zeros_push(prefix, c);
            if all_zeros(prefix) {
                assert(without_leading_zeros(prefix) =~= Seq::<char>::empty()) by {
                    lemma_all_zeros_vanish(prefix);
                }
            }
        }
        if !(leading && c == '0') {
            leading = false;
            push_char(&mut res, c);
        }
        proof {
            let next = prefix.push(c);
            if was_leading {
                assert(all_zeros(next) == (c == '0')) by {
                    assert(next[next.len() - 1] == c);
                    assert forall|i: int| 0 <= i < prefix.len() implies next[i] == prefix[i] by {}
                }
            } else {
                let w = choose|i: int| 0 <= i < prefix.len() && prefix[i] != '0';
                assert(next[w] == prefix[w]);
            }
        }
    }
    proof {
        assert(digit_chars.take(digit_chars.len() as int) =~= digit_chars);
    }
    res
}

/// No character of `s` is a decimal point.
pub open spec fn has_no_points(s: Seq<char>) -> bool {
    forall|i: int| 0 <= i < s.len() ==> s[i] != '.'
}

proof fn lemma_without_points_has_no_points(s: Seq<char>)
    ensures
        has_no_points(without_points(s)),
    decreases s.len(),
{
    if s.len() > 0 {
        lemma_without_points_has_no_points(s.drop_last());
    }
}

proof fn lemma_without_points_keeps(s: Seq<char>)
    requires
        has_no_points(s),
    ensures
        without_points(s) == s,
    decreases s.len(),
{
    if s.len() > 0 {
        assert(has_no_points(s.drop_last()));
        lemma_without_points_keeps(s.drop_last());
        assert(s.drop_last().push(s.last()) =~= s);
    }
}

proof fn lemma_without_leading_zeros_shape(s: Seq<char>)
    ensures
        has_no_points(s) ==> has_no_points(without_leading_zeros(s)),
        without_leading_zeros(s).len() == 0 || without_leading_zeros(s)[0] != '0',
    decreases s.len(),
{
    if s.len() > 0 && s[0] == '0' {
        if has_no_points(s) {
            assert(has_no_points(s.drop_first()));
        }
        lemma_without_leading_zeros_shape(s.drop_first());
    }
}

/// A text that loses everything to its leading zeros is all zeros.
proof fn lemma_vanishing_is_all_zeros(s: Seq<char>)
    requires
        without_leading_zeros(s).len() == 0,
    ensures
        all_zeros(s),
    decreases s.len(),
{
    if s.len() > 0 {
        assert(s[0] == '0');
        lemma_vanishing_is_all_zeros(s.drop_first());
        assert forall|i: int| 0 <= i < s.len() implies s[i] == '0' by {
            if i > 0 {
                assert(s[i] == s.drop_first()[i - 1]);
            }
        }
    }
}

/// Removing the decimals works one character at a time from the left: an
/// empty text gives an empty one, a decimal point adds nothing, any other
/// character is kept at the end once something has been kept, and before
/// that a zero is dropped and any other character starts the result.
pub proof fn remove_decimals_step(s: Seq<char>, c: char)
    ensures
        removed_decimals(Seq::<char>::empty()).len() == 0,
        removed_decimals(s.push('.')) == removed_decimals(s),
        c != '.' && removed_decimals(s).len() > 0 ==> removed_decimals(s.push(c)) == removed_decimals(
            s,
        ).push(c),
        c != '.' && c != '0' && removed_decimals(s).len() == 0 ==> removed_decimals(s.push(c))
            == seq![c],
        removed_decimals(s).len() == 0 ==> removed_decimals(s.push('0')).len() == 0,
{
    assert(s.push('.').drop_last() =~= s);
    assert(without_points(s.push('.')) == without_points(s));
    let w = without_points(s);
    if c != '.' {
        assert(s.push(c).drop_last() =~= s);
        assert(without_points(s.push(c)) == w.push(c));
        lemma_without_leading_zeros_push(w, c);
    }
    assert(s.push('0').drop_last() =~= s);
    assert(without_points(s.push('0')) == w.push('0'));
    lemma_without_leading_zeros_push(w, '0');
    if without_leading_zeros(w).len() == 0 {
        lemma_vanishing_is_all_zeros(w);
    }
    if all_zeros(w) {
        lemma_all_zeros_vanish(w);
    }
}

/// What `remove_decimals` returns holds no decimal point and does not
/// start with a zero.
pub proof fn remove_decimals_result_shape(s: Seq<char>)
    ensures
        has_no_points(removed_decimals(s)),
        removed_decimals(s).len() == 0 || removed_decimals(s)[0] != '0',
{
    lemma_without_points_has_no_points(s);
    lemma_without_leading_zeros_shape(without_points(s));
}

/// Removing the decimals of a string twice gives what removing them once
/// gives.
pub proof fn remove_decimals_is_idempotent(s: Seq<char>)
    ensures
        removed_decimals(removed_decimals(s)) == removed_decimals(s),
{
    let r = removed_decimals(s);
    remove_decimals_result_shape(s);
    lemma_without_points_keeps(r);
}

} // verus!
