use vstd::prelude::*;
use vstd::std_specs::iter::IteratorSpec;

verus! {

broadcast use vstd::string::axiom_spec_iter, vstd::string::next_postcondition;

/// The characters of a string, in order.
pub fn str_to_chars(s: &str) -> (v: Vec<char>)
    ensures
        v@ == s@,
{
    let mut it = s.chars();
    let mut v: Vec<char> = Vec::new();
    loop
        invariant
            it.obeys_prophetic_iter_laws(),
            it.decrease() is Some,
            v@ + it.remaining() == s@,
        ensures
            v@ == s@,
        decreases it.decrease()->0,
    {
        match it.next() {
            Some(c) => {
                v.push(c);
            },
            None => {
                proof {
                    assert(v@ + it.remaining() =~= v@);
                }
                break ;
            },
        }
    }
    v
}

/// Builds the string of exactly the given characters.
///
/// Relies on `String: FromIterator<char>`: collecting characters in order
/// yields the string made of those characters.
#[verifier::external_body]
pub fn chars_to_string(v: &Vec<char>) -> (s: String)
    ensures
        s@ == v@,
{
    v.iter().collect()
}

/// The decimal digit for a value below ten.
pub open spec fn spec_digit_char(d: nat) -> char {
    if d == 0 {
        '0'
    } else if d == 1 {
        '1'
    } else if d == 2 {
        '2'
    } else if d == 3 {
        '3'
    } else if d == 4 {
        '4'
    } else if d == 5 {
        '5'
    } else if d == 6 {
        '6'
    } else if d == 7 {
        '7'
    } else if d == 8 {
        '8'
    } else {
        '9'
    }
}

/// The decimal digits of a natural number, most significant first.
pub open spec fn spec_udigits(n: nat) -> Seq<char>
    decreases n,
{
    if n < 10 {
        seq![spec_digit_char(n)]
    } else {
        spec_udigits(n / 10).push(spec_digit_char(n % 10))
    }
}

/// Appends the decimal digits of `n` to `out`.
pub fn push_digits(n: usize, out: &mut Vec<char>)
    ensures
        final(out)@ == old(out)@ + spec_udigits(n as nat),
    decreases n,
{
    if n >= 10 {
        push_digits(n / 10, out);
    }
    let d = n % 10;
    let c = if d == 0 {
        '0'
    } else if d == 1 {
        '1'
    } else if d == 2 {
        '2'
    } else if d == 3 {
        '3'
    } else if d == 4 {
        '4'
    } else if d == 5 {
        '5'
    } else if d == 6 {
        '6'
    } else if d == 7 {
        '7'
    } else if d == 8 {
        '8'
    } else {
        '9'
    };
    out.push(c);
    proof {
        if n >= 10 {
            assert(final(out)@ =~= old(out)@ + spec_udigits(n as nat));
        } else {
            assert(spec_udigits(n as nat) =~= seq![spec_digit_char(n as nat)]);
            assert(final(out)@ =~= old(out)@ + spec_udigits(n as nat));
        }
    }
}

/// The decimal rendering of an index between a fixed prefix and suffix.
pub fn make_indexed_name(prefix: &str, i: usize, suffix: &str) -> (s: String)
    ensures
        s@ == prefix@ + spec_udigits(i as nat) + suffix@,
{
    let mut v = str_to_chars(prefix);
    push_digits(i, &mut v);
    let mut tail = str_to_chars(suffix);
    v.append(&mut tail);
    let s = chars_to_string(&v);
    proof {
        assert(s@ =~= prefix@ + spec_udigits(i as nat) + suffix@);
    }
    s
}


/// Division that rounds toward zero, as the backend's pixel arithmetic
/// does.
pub open spec fn spec_div_trunc(a: int, b: int) -> int
    recommends
        b >= 1,
{
    if a >= 0 {
        a / b
    } else {
        -((-a) / b)
    }
}

/// Halving that rounds toward zero.
pub open spec fn spec_half(v: int) -> int {
    if v >= 0 {
        v / 2
    } else {
        -((-v) / 2)
    }
}

/// Division of a wide value, rounding toward zero.
pub fn div_trunc_i64(a: i64, b: i64) -> (r: i64)
    requires
        a > i64::MIN,
        b >= 1,
    ensures
        r == spec_div_trunc(a as int, b as int),
{
    if a >= 0 {
        a / b
    } else {
        -((-a) / b)
    }
}


/// The exact product of two narrow values, in a wide integer.
pub fn mul_i32_i64(a: i32, b: i32) -> (r: i64)
    ensures
        r == a as int * b as int,
        -0x4000_0000_0000_0000 <= r <= 0x4000_0000_0000_0000,
{
    proof {
        assert((a as int) * (b as int) <= 0x4000_0000_0000_0000int && (a as int) * (b as int)
            >= -0x4000_0000_0000_0000int) by (nonlinear_arith)
            requires
                -0x8000_0000 <= a as int <= 0x7fff_ffff,
                -0x8000_0000 <= b as int <= 0x7fff_ffff,
        ;
    }
    (a as i64) * (b as i64)
}

} // verus!
