//! Web integration for the `foo` feature: its route binding and the
//! handler that renders the feature's integer result as plain text.

use vstd::prelude::*;
use vstd::seq_lib::*;
use crate::app::Application;
use crate::feat::foo::Foo;
use crate::feat::foo::handle_callable;
use crate::feat::foo::handle_value;
use crate::feat::web::feature_router::Endpoint;
use crate::feat::web::feature_router::FeatureRouter;
use crate::feat::web::feature_router::HttpMethod;
use crate::feat::web::feature_router::Route;
use crate::feat::web::feature_router::is_foo_route;

verus! {

/// Implement the same route for all `Foo`s: one GET endpoint that invokes
/// the business-logic operation and serves the result as plain text.
impl<F: Foo> FeatureRouter for F {
    open spec fn spec_routes(&self, routes: Seq<Route>) -> bool {
        routes.len() == 1 && is_foo_route(routes[0])
    }

    fn router(&self, _app: &Application) -> (r: Vec<Route>) {
        let mut v: Vec<Route> = Vec::new();
        v.push(Route { method: HttpMethod::Get, path: "/foo".to_owned(), endpoint: Endpoint::Foo });
        v
    }
}

/// Handler for the feature's endpoint: transforms the feature's result
/// into the response text. Logic is delegated to the feature itself.
pub fn handler(app: &Application) -> (s: String)
    requires
        handle_callable(app.foo),
    ensures
        s@ == spec_decimal(handle_value(app.foo) as int),
{
    let foo = app.foo.run_foo();
    format_i32(foo)
}

/// The character for one decimal digit.
pub open spec fn spec_digit(d: int) -> char
    recommends
        0 <= d < 10,
{
    if d == 0 {
        '0'
    } else if d == 1 {
        '1'
    } else if d == 2 {
        '2'
    } else if d == 3 {
        '3'
    } else if d == 4 {
        '4'
    } else if d == 5 {
        '5'
    } else if d == 6 {
        '6'
    } else if d == 7 {
        '7'
    } else if d == 8 {
        '8'
    } else {
        '9'
    }
}

/// The decimal digits of `n`, most significant first, without sign and
/// without leading zeroes (a single `'0'` for zero).
pub open spec fn spec_decimal_digits(n: nat) -> Seq<char>
    decreases n,
{
    if n < 10 {
        seq![spec_digit(n as int)]
    } else {
        spec_decimal_digits(n / 10).push(spec_digit((n % 10) as int))
    }
}

/// The decimal digits of `n`, least significant first: the order in which
/// repeated division produces them.
pub open spec fn spec_rev_digits(n: nat) -> Seq<char>
    decreases n,
{
    if n < 10 {
        seq![spec_digit(n as int)]
    } else {
        seq![spec_digit((n % 10) as int)] + spec_rev_digits(n / 10)
    }
}

/// An integer rendered in base 10, exactly as the feature endpoint serves
/// it: an optional leading minus, then the digits, no other characters.
pub open spec fn spec_decimal(n: int) -> Seq<char> {
    if n < 0 {
        seq!['-'] + spec_decimal_digits((-n) as nat)
    } else {
        spec_decimal_digits(n as nat)
    }
}

/// The digits most-significant-first are the reverse of the digits
/// least-significant-first.
proof fn lemma_decimal_digits_reverse(n: nat)
    ensures
        spec_decimal_digits(n) == spec_rev_digits(n).reverse(),
        spec_decimal_digits(n).len() == spec_rev_digits(n).len(),
    decreases n,
{
    if n < 10 {
        assert(spec_rev_digits(n).reverse() =~= spec_decimal_digits(n));
    } else {
        lemma_decimal_digits_reverse(n / 10);
        let d = spec_digit((n % 10) as int);
        assert(spec_rev_digits(n) == seq![d] + spec_rev_digits(n / 10));
        assert(spec_rev_digits(n).reverse() =~= spec_rev_digits(n / 10).reverse().push(d));
        assert(spec_decimal_digits(n) == spec_decimal_digits(n / 10).push(d));
    }
}

/// Relies on `String::push`: appends exactly the one character.
#[verifier::external_body]
fn push_char(s: &mut String, c: char)
    ensures
        final(s)@ == old(s)@.push(c),
{
    s.push(c)
}

/// The character for one decimal digit.
fn digit_char(d: u32) -> (c: char)
    requires
        d < 10,
    ensures
        c == spec_digit(d as int),
{
    if d == 0 {
        '0'
    } else if d == 1 {
        '1'
    } else if d == 2 {
        '2'
    } else if d == 3 {
        '3'
    } else if d == 4 {
        '4'
    } else if d == 5 {
        '5'
    } else if d == 6 {
        '6'
    } else if d == 7 {
        '7'
    } else if d == 8 {
        '8'
    } else {
        '9'
    }
}

/// Render an integer in base 10: an optional leading minus, then the
/// digits, no trailing newline.
pub fn format_i32(n: i32) -> (s: String)
    ensures
        s@ == spec_decimal(n as int),
{
    let mut s = String::new();
    if n < 0 {
        push_char(&mut s, '-');
    }
    let ghost base: Seq<char> = s@;
    proof {
        assert(n < 0 ==> base =~= seq!['-']);
        assert(n >= 0 ==> base =~= Seq::<char>::empty());
    }
    let mag: u32 = if n >= 0 {
        n as u32
    } else {
        (-(n as i64)) as u32
    };
    let ghost gm: nat = mag as nat;
    proof {
        assert(n >= 0 ==> gm == n as int);
        assert(n < 0 ==> gm == -(n as int));
    }
    if mag == 0 {
        push_char(&mut s, '0');
        proof {
            assert(s@ =~= spec_decimal(n as int));
        }
        return s;
    }
    let mut digits: Vec<char> = Vec::new();
    let mut x = mag;
    while x > 0
        invariant
            gm > 0,
            x > 0 ==> spec_rev_digits(gm) == digits@ + spec_rev_digits(x as nat),
            x == 0 ==> spec_rev_digits(gm) == digits@,
        decreases x,
    {
        let ghost x0 = x as nat;
        let ghost digits0 = digits@;
        let d = x % 10;
        let c = digit_char(d);
        digits.push(c);
        x = x / 10;
        proof {
            if x == 0 {
                assert(x0 < 10);
                assert(spec_rev_digits(x0) == seq![spec_digit(x0 as int)]);
                assert(spec_rev_digits(gm) =~= digits@);
            } else {
                assert(x0 >= 10);
                assert(spec_rev_digits(x0) == seq![spec_digit((x0 % 10) as int)] + spec_rev_digits(
                    x0 / 10,
                ));
                assert(spec_rev_digits(gm) =~= digits@ + spec_rev_digits(x as nat));
            }
        }
    }
    proof {
        lemma_decimal_digits_reverse(gm);
    }
    let ghost dec: Seq<char> = spec_decimal_digits(gm);
    let mut i = digits.len();
    proof {
        assert(s@ =~= base + dec.subrange(0, 0));
    }
    while i > 0
        invariant
            i <= digits@.len(),
            digits@ == spec_rev_digits(gm),
            dec == spec_decimal_digits(gm),
            dec == spec_rev_digits(gm).reverse(),
            dec.len() == digits@.len(),
            s@ == base + dec.subrange(0, digits@.len() - i),
        decreases i,
    {
        i -= 1;
        let c = digits[i];
        push_char(&mut s, c);
        proof {
            let len = digits@.len() as int;
            assert(dec[len - 1 - i] == digits@[i as int]);
            assert(dec.subrange(0, len - i) =~= dec.subrange(0, len - i - 1).push(
                dec[len - i - 1],
            ));
        }
    }
    proof {
        assert(dec.subrange(0, digits@.len() as int) =~= dec);
        assert(s@ =~= spec_decimal(n as int));
    }
    s
}

} // verus!
