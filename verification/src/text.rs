use vstd::prelude::*;
use vstd::string::StringExecFns;

verus! {

/// The character for one decimal digit.
pub open spec fn spec_digit(d: int) -> char
    recommends
        0 <= d < 10,
{
    if d == 0 {
        '0'
    } else if d == 1 {
        '1'
    } else if d == 2 {
        '2'
    } else if d == 3 {
        '3'
    } else if d == 4 {
        '4'
    } else if d == 5 {
        '5'
    } else if d == 6 {
        '6'
    } else if d == 7 {
        '7'
    } else if d == 8 {
        '8'
    } else {
        '9'
    }
}

/// The decimal rendering of a natural number, most significant digit first.
pub open spec fn spec_nat_dec(n: nat) -> Seq<char>
    decreases n,
{
    if n < 10 {
        seq![spec_digit(n as int)]
    } else {
        spec_nat_dec(n / 10).push(spec_digit((n % 10) as int))
    }
}

/// The decimal rendering of a signed number.
pub open spec fn spec_int_dec(n: int) -> Seq<char> {
    if n >= 0 {
        spec_nat_dec(n as nat)
    } else {
        seq!['-'] + spec_nat_dec((-n) as nat)
    }
}

/// A sequence of parts joined with a comma and a space.
pub open spec fn spec_joined(items: Seq<Seq<char>>) -> Seq<char>
    decreases items.len(),
{
    if items.len() == 0 {
        Seq::empty()
    } else if items.len() == 1 {
        items[0]
    } else {
        items[0] + ", "@ + spec_joined(items.skip(1))
    }
}

/// One decimal digit as text.
fn digit_str(d: u32) -> (r: &'static str)
    requires
        d < 10,
    ensures
        r@ == seq![spec_digit(d as int)],
{
    if d == 0 {
        proof {
            reveal_strlit("0");
            assert("0"@ =~= seq![spec_digit(0)]);
        }
        "0"
    } else if d == 1 {
        proof {
            reveal_strlit("1");
            assert("1"@ =~= seq![spec_digit(1)]);
        }
        "1"
    } else if d == 2 {
        proof {
            reveal_strlit("2");
            assert("2"@ =~= seq![spec_digit(2)]);
        }
        "2"
    } else if d == 3 {
        proof {
            reveal_strlit("3");
            assert("3"@ =~= seq![spec_digit(3)]);
        }
        "3"
    } else if d == 4 {
        proof {
            reveal_strlit("4");
            assert("4"@ =~= seq![spec_digit(4)]);
        }
        "4"
    } else if d == 5 {
        proof {
            reveal_strlit("5");
            assert("5"@ =~= seq![spec_digit(5)]);
        }
        "5"
    } else if d == 6 {
        proof {
            reveal_strlit("6");
            assert("6"@ =~= seq![spec_digit(6)]);
        }
        "6"
    } else if d == 7 {
        proof {
            reveal_strlit("7");
            assert("7"@ =~= seq![spec_digit(7)]);
        }
        "7"
    } else if d == 8 {
        proof {
            reveal_strlit("8");
            assert("8"@ =~= seq![spec_digit(8)]);
        }
        "8"
    } else {
        proof {
            reveal_strlit("9");
            assert("9"@ =~= seq![spec_digit(9)]);
        }
        "9"
    }
}

/// The decimal text of an unsigned number.
pub fn u32_string(n: u32) -> (r: String)
    ensures
        r@ == spec_nat_dec(n as nat),
    decreases n,
{
    if n < 10 {
        digit_str(n).to_owned()
    } else {
        let rest = u32_string(n / 10);
        let r = rest.concat(digit_str(n % 10));
        proof {
            assert(r@ =~= spec_nat_dec((n / 10) as nat).push(spec_digit((n % 10) as int)));
        }
        r
    }
}

/// The decimal text of a signed number.
pub fn i32_string(n: i32) -> (r: String)
    ensures
        r@ == spec_int_dec(n as int),
{
    if n >= 0 {
        u32_string(n as u32)
    } else {
        let mag: u32 = (-(n as i64)) as u32;
        proof {
            reveal_strlit("-");
            assert("-"@ =~= seq!['-']);
        }
        let digits = u32_string(mag);
        let r = "-".to_owned().concat(digits.as_str());
        proof {
            assert(r@ =~= seq!['-'] + spec_nat_dec((-(n as int)) as nat));
        }
        r
    }
}

/// The items joined with a comma and a space, starting at index `i`.
fn join_from(items: &Vec<String>, i: usize) -> (r: String)
    requires
        i <= items.len(),
    ensures
        r@ == spec_joined(items.deep_view().skip(i as int)),
    decreases items.len() - i,
{
    if i == items.len() {
        let r = String::new();
        proof {
            assert(items.deep_view().skip(i as int) =~= Seq::<Seq<char>>::empty());
        }
        r
    } else if i + 1 == items.len() {
        let r = items[i].clone();
        proof {
            assert(items.deep_view().skip(i as int).len() == 1);
            assert(items.deep_view().skip(i as int)[0] == items.deep_view()[i as int]);
        }
        r
    } else {
        let rest = join_from(items, i + 1);
        let r = items[i].clone().concat(", ").concat(rest.as_str());
        proof {
            assert(items.deep_view().skip(i as int).skip(1) =~= items.deep_view().skip(
                i as int + 1,
            ));
            assert(items.deep_view().skip(i as int)[0] == items.deep_view()[i as int]);
        }
        r
    }
}

/// The items joined with a comma and a space.
pub fn join_comma(items: &Vec<String>) -> (r: String)
    ensures
        r@ == spec_joined(items.deep_view()),
{
    let r = join_from(items, 0);
    proof {
        assert(items.deep_view().skip(0) =~= items.deep_view());
    }
    r
}

} // verus!
