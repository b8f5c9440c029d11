//! The status line shown under the text: the unsaved marker and the cursor.
use vstd::prelude::*;
use vstd::string::*;

verus! {

/// The decimal digit for `d`, for `d` in `0..10`.
pub open spec fn digit_char(d: nat) -> char {
    (d + 48) as char
}

/// The decimal notation of `n`, without leading zeros.
pub open spec fn decimal(n: nat) -> Seq<char>
    decreases n,
{
    if n < 10 {
        seq![digit_char(n)]
    } else {
        decimal(n / 10).push(digit_char(n % 10))
    }
}

/// Whether `ch` is one of the digits `0`-`9`.
pub open spec fn is_digit(ch: char) -> bool {
    48 <= ch as int <= 57
}

/// The number that a string of digits denotes in base 10.
pub open spec fn digits_value(s: Seq<char>) -> int
    decreases s.len(),
{
    if s.len() == 0 {
        0
    } else {
        digits_value(s.drop_last()) * 10 + (s.last() as int - 48)
    }
}

/// A standard decimal numeral: one or more digits, with no leading zero
/// unless the numeral is `0` itself.
pub open spec fn is_numeral(s: Seq<char>) -> bool {
    &&& s.len() >= 1
    &&& forall|i: int| 0 <= i < s.len() ==> is_digit(#[trigger] s[i])
    &&& s.len() > 1 ==> s[0] != '0'
}

/// The marker for unsaved changes: `[+]`, or three blanks.
pub open spec fn dirty_marker(dirty: bool) -> Seq<char> {
    if dirty {
        seq!['[', '+', ']']
    } else {
        seq![' ', ' ', ' ']
    }
}

/// The status line: ` <marker> | cur <cursor> `.
pub open spec fn status_text(dirty: bool, cursor: nat) -> Seq<char> {
    seq![' '] + dirty_marker(dirty) + seq![' ', '|', ' ', 'c', 'u', 'r', ' '] + decimal(cursor)
        + seq![' ']
}

fn digit_str(d: usize) -> (s: &'static str)
    requires
        d < 10,
    ensures
        s@ == seq![digit_char(d as nat)],
{
    match d {
        0 => {
            proof {
                reveal_strlit("0");
            }
            "0"
        },
        1 => {
            proof {
                reveal_strlit("1");
            }
            "1"
        },
        2 => {
            proof {
                reveal_strlit("2");
            }
            "2"
        },
        3 => {
            proof {
                reveal_strlit("3");
            }
            "3"
        },
        4 => {
            proof {
                reveal_strlit("4");
            }
            "4"
        },
        5 => {
            proof {
                reveal_strlit("5");
            }
            "5"
        },
        6 => {
            proof {
                reveal_strlit("6");
            }
            "6"
        },
        7 => {
            proof {
                reveal_strlit("7");
            }
            "7"
        },
        8 => {
            proof {
                reveal_strlit("8");
            }
            "8"
        },
        _ => {
            proof {
                reveal_strlit("9");
            }
            "9"
        },
    }
}

/// Appends the decimal notation of `n` to `out`.
pub fn push_decimal(out: &mut String, n: usize)
    ensures
        final(out)@ == old(out)@ + decimal(n as nat),
        final(out)@.subrange(0, old(out)@.len() as int) == old(out)@,
        is_numeral(final(out)@.subrange(old(out)@.len() as int, final(out)@.len() as int)),
        digits_value(final(out)@.subrange(old(out)@.len() as int, final(out)@.len() as int)) == n,
    decreases n,
{
    if n >= 10 {
        push_decimal(out, n / 10);
    }
    out.append(digit_str(n % 10));
    assert(final(out)@ =~= old(out)@ + decimal(n as nat));
    proof {
        lemma_decimal_is_numeral(n as nat);
        assert(final(out)@.subrange(old(out)@.len() as int, final(out)@.len() as int) =~= decimal(
            n as nat,
        ));
        assert(final(out)@.subrange(0, old(out)@.len() as int) =~= old(out)@);
    }
}

/// The status line for the given unsaved flag and cursor.
pub fn status_line(dirty: bool, cursor: usize) -> (s: String)
    ensures
        s@ == status_text(dirty, cursor as nat),
        s@.subrange(0, 11) == (if dirty {
            seq![' ', '[', '+', ']', ' ', '|', ' ', 'c', 'u', 'r', ' ']
        } else {
            seq![' ', ' ', ' ', ' ', ' ', '|', ' ', 'c', 'u', 'r', ' ']
        }),
        s@.last() == ' ',
        is_numeral(s@.subrange(11, s@.len() - 1)),
        digits_value(s@.subrange(11, s@.len() - 1)) == cursor,
{
    proof {
        reveal_strlit(" ");
        reveal_strlit("[+]");
        reveal_strlit("   ");
        reveal_strlit(" | cur ");
    }
    let mut s = String::from_str(" ");
    if dirty {
        s.append("[+]");
    } else {
        s.append("   ");
    }
    s.append(" | cur ");
    push_decimal(&mut s, cursor);
    s.append(" ");
    assert(s@ =~= status_text(dirty, cursor as nat));
    proof {
        lemma_status_text_parts(dirty, cursor as nat);
    }
    s
}

/// `decimal(n)` is the standard numeral of `n`: digits only, no leading
/// zero, and read in base 10 it gives back `n`.
pub proof fn lemma_decimal_is_numeral(n: nat)
    ensures
        is_numeral(decimal(n)),
        digits_value(decimal(n)) == n,
    decreases n,
{
    if n < 10 {
        let d = decimal(n);
        assert(d.drop_last() =~= Seq::<char>::empty());
        assert(digits_value(d.drop_last()) == 0);
        assert(d[0] == digit_char(n));
        assert(is_digit(d[0]));
        assert(digits_value(d) == digits_value(d.drop_last()) * 10 + (d.last() as int - 48));
    } else {
        lemma_decimal_is_numeral(n / 10);
        let d = decimal(n);
        let p = decimal(n / 10);
        assert(d.drop_last() =~= p);
        assert(d[0] == p[0]);
        assert(d.last() == digit_char(n % 10));
        assert(digits_value(d) == digits_value(d.drop_last()) * 10 + (d.last() as int - 48));
        if n / 10 < 10 {
            assert(p[0] == digit_char(n / 10));
            assert(p[0] as int != 48);
        } else {
            assert(decimal(n / 10) == decimal(n / 100).push(digit_char((n / 10) % 10)));
            assert(p.len() > 1);
        }
        assert(d[0] != '0');
        assert forall|i: int| 0 <= i < d.len() implies is_digit(#[trigger] d[i]) by {
            if i < p.len() {
                assert(d[i] == p[i]);
            }
        }
    }
}

/// Two standard numerals that denote the same number are the same: the
/// decimal notation of a number is unique.
pub proof fn lemma_numeral_unique(a: Seq<char>, b: Seq<char>)
    requires
        is_numeral(a),
        is_numeral(b),
        digits_value(a) == digits_value(b),
    ensures
        a == b,
    decreases a.len() + b.len(),
{
    lemma_numeral_bounds(a);
    lemma_numeral_bounds(b);
    if a.len() == 1 && b.len() == 1 {
        assert(a.drop_last() =~= Seq::<char>::empty());
        assert(b.drop_last() =~= Seq::<char>::empty());
        assert(a =~= b);
    } else if a.len() == 1 || b.len() == 1 {
        // a one-digit numeral is below 10, a longer one is at least 10
        assert(false);
    } else {
        let a1 = a.drop_last();
        let b1 = b.drop_last();
        assert(is_numeral(a1)) by {
            assert forall|i: int| 0 <= i < a1.len() implies is_digit(#[trigger] a1[i]) by {
                assert(a1[i] == a[i]);
            }
        }
        assert(is_numeral(b1)) by {
            assert forall|i: int| 0 <= i < b1.len() implies is_digit(#[trigger] b1[i]) by {
                assert(b1[i] == b[i]);
            }
        }
        assert(is_digit(a.last()) && is_digit(b.last()));
        assert(digits_value(a1) == digits_value(b1) && a.last() == b.last());
        lemma_numeral_unique(a1, b1);
        assert(a =~= a1.push(a.last()));
        assert(b =~= b1.push(b.last()));
    }
}

/// A numeral of one digit denotes a number below 10; a longer one a number
/// of at least 10.
proof fn lemma_numeral_bounds(a: Seq<char>)
    requires
        is_numeral(a),
    ensures
        a.len() == 1 ==> 0 <= digits_value(a) < 10,
        a.len() > 1 ==> digits_value(a) >= 10,
        digits_value(a) >= 0,
    decreases a.len(),
{
    let a1 = a.drop_last();
    assert(is_digit(a[a.len() - 1]));
    assert(digits_value(a) == digits_value(a1) * 10 + (a.last() as int - 48));
    if a.len() == 1 {
        assert(a1 =~= Seq::<char>::empty());
        assert(digits_value(a1) == 0);
    } else {
        assert(is_numeral(a1)) by {
            assert forall|i: int| 0 <= i < a1.len() implies is_digit(#[trigger] a1[i]) by {
                assert(a1[i] == a[i]);
            }
        }
        lemma_numeral_bounds(a1);
        if a1.len() == 1 {
            assert(a1[0] == a[0]);
            assert(a1.drop_last() =~= Seq::<char>::empty());
            assert(digits_value(a1.drop_last()) == 0);
            assert(is_digit(a[0]));
            assert(digits_value(a1) == digits_value(a1.drop_last()) * 10 + (a1.last() as int - 48));
            assert(digits_value(a1) >= 1);
        }
    }
}

/// The status line shows `[+]` exactly when there are unsaved changes,
/// whatever the cursor; after ` | cur ` it shows the cursor as a standard
/// numeral, and it ends with a blank.
pub proof fn lemma_status_text_parts(dirty: bool, cursor: nat)
    ensures
        status_text(dirty, cursor).subrange(0, 11) == (if dirty {
            seq![' ', '[', '+', ']', ' ', '|', ' ', 'c', 'u', 'r', ' ']
        } else {
            seq![' ', ' ', ' ', ' ', ' ', '|', ' ', 'c', 'u', 'r', ' ']
        }),
        status_text(dirty, cursor).last() == ' ',
        is_numeral(status_text(dirty, cursor).subrange(11, status_text(dirty, cursor).len() - 1)),
        digits_value(status_text(dirty, cursor).subrange(11, status_text(dirty, cursor).len() - 1))
            == cursor,
{
    lemma_decimal_is_numeral(cursor);
    let t = status_text(dirty, cursor);
    assert(t.subrange(11, t.len() - 1) =~= decimal(cursor));
    assert(t.subrange(0, 11) =~= (if dirty {
        seq![' ', '[', '+', ']', ' ', '|', ' ', 'c', 'u', 'r', ' ']
    } else {
        seq![' ', ' ', ' ', ' ', ' ', '|', ' ', 'c', 'u', 'r', ' ']
    }));
}

} // verus!
