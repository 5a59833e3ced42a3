//! Small helpers: hexadecimal dumps of byte buffers, and a two-option
//! container mapped by caller-supplied functions.

use vstd::prelude::*;

verus! {

/// Text equality of two borrowed strings.
pub(crate) fn str_eq(a: &str, b: &str) -> (r: bool)
    ensures
        r == (a@ == b@),
{
    a.to_owned() == b.to_owned()
}

/// The hexadecimal digit of a value below sixteen.
pub open spec fn spec_hex_digit(n: u8, uppercase: bool) -> char
    recommends
        n < 16,
{
    if n == 0 {
        '0'
    } else if n == 1 {
        '1'
    } else if n == 2 {
        '2'
    } else if n == 3 {
        '3'
    } else if n == 4 {
        '4'
    } else if n == 5 {
        '5'
    } else if n == 6 {
        '6'
    } else if n == 7 {
        '7'
    } else if n == 8 {
        '8'
    } else if n == 9 {
        '9'
    } else if n == 10 {
        if uppercase {
            'A'
        } else {
            'a'
        }
    } else if n == 11 {
        if uppercase {
            'B'
        } else {
            'b'
        }
    } else if n == 12 {
        if uppercase {
            'C'
        } else {
            'c'
        }
    } else if n == 13 {
        if uppercase {
            'D'
        } else {
            'd'
        }
    } else if n == 14 {
        if uppercase {
            'E'
        } else {
            'e'
        }
    } else {
        if uppercase {
            'F'
        } else {
            'f'
        }
    }
}

/// The two hexadecimal digits of one byte, high nibble first.
pub open spec fn spec_hex_pair(b: u8, uppercase: bool) -> Seq<char> {
    seq![spec_hex_digit(b / 16, uppercase), spec_hex_digit(b % 16, uppercase)]
}

/// The hexadecimal dump of a byte sequence: two digits per byte, in order.
pub open spec fn spec_hex_dump_with(bytes: Seq<u8>, uppercase: bool) -> Seq<char>
    decreases bytes.len(),
{
    if bytes.len() == 0 {
        Seq::<char>::empty()
    } else {
        spec_hex_dump_with(bytes.drop_last(), uppercase) + spec_hex_pair(bytes.last(), uppercase)
    }
}

/// The lowercase hexadecimal dump.
pub open spec fn spec_hex_dump(bytes: Seq<u8>) -> Seq<char> {
    spec_hex_dump_with(bytes, false)
}

/// The uppercase hexadecimal dump.
pub open spec fn spec_hex_dump_uppercase(bytes: Seq<u8>) -> Seq<char> {
    spec_hex_dump_with(bytes, true)
}

/// One hexadecimal digit as text.
fn hex_digit(n: u8, uppercase: bool) -> (r: &'static str)
    requires
        n < 16,
    ensures
        r@.len() == 1,
        r@[0] == spec_hex_digit(n, uppercase),
{
    proof {
        reveal_strlit("0");
        reveal_strlit("1");
        reveal_strlit("2");
        reveal_strlit("3");
        reveal_strlit("4");
        reveal_strlit("5");
        reveal_strlit("6");
        reveal_strlit("7");
        reveal_strlit("8");
        reveal_strlit("9");
        reveal_strlit("a");
        reveal_strlit("b");
        reveal_strlit("c");
        reveal_strlit("d");
        reveal_strlit("e");
        reveal_strlit("f");
        reveal_strlit("A");
        reveal_strlit("B");
        reveal_strlit("C");
        reveal_strlit("D");
        reveal_strlit("E");
        reveal_strlit("F");
    }
    match n {
        0 => "0",
        1 => "1",
        2 => "2",
        3 => "3",
        4 => "4",
        5 => "5",
        6 => "6",
        7 => "7",
        8 => "8",
        9 => "9",
        10 => if uppercase {
            "A"
        } else {
            "a"
        },
        11 => if uppercase {
            "B"
        } else {
            "b"
        },
        12 => if uppercase {
            "C"
        } else {
            "c"
        },
        13 => if uppercase {
            "D"
        } else {
            "d"
        },
        14 => if uppercase {
            "E"
        } else {
            "e"
        },
        _ => if uppercase {
            "F"
        } else {
            "f"
        },
    }
}

/// The dump in the requested case, one byte after the other.
fn hex_dump_with(buf: &[u8], uppercase: bool) -> (r: String)
    ensures
        r@ == spec_hex_dump_with(buf@, uppercase),
{
    let mut s = String::new();
    let mut i: usize = 0;
    while i < buf.len()
        invariant
            0 <= i <= buf@.len(),
            s@ == spec_hex_dump_with(buf@.take(i as int), uppercase),
        decreases buf@.len() - i,
    {
        let b = buf[i];
        let hi = hex_digit(b / 16, uppercase);
        let lo = hex_digit(b % 16, uppercase);
        s.append(hi);
        s.append(lo);
        proof {
            let prefix = buf@.take(i as int);
            let extended = buf@.take(i as int + 1);
            assert(extended.drop_last() =~= prefix);
            assert(extended.last() == buf@[i as int]);
            assert(hi@ + lo@ =~= spec_hex_pair(buf@[i as int], uppercase));
            assert(s@ == spec_hex_dump_with(extended, uppercase));
        }
        i += 1;
    }
    proof {
        assert(buf@.take(buf@.len() as int) =~= buf@);
    }
    s
}

/// The lowercase hexadecimal dump of a buffer, two digits per byte.
pub fn hex_dump(buf: &[u8]) -> (r: String)
    ensures
        r@ == spec_hex_dump(buf@),
{
    hex_dump_with(buf, false)
}

/// The uppercase hexadecimal dump of a buffer, two digits per byte.
pub fn hex_dump_uppercase(buf: &[u8]) -> (r: String)
    ensures
        r@ == spec_hex_dump_uppercase(buf@),
{
    hex_dump_with(buf, true)
}

/// Can hold either of the options.
#[derive(Debug, PartialEq, Eq)]
pub enum Either<L, R> {
    Left(L),
    Right(R),
}

impl<L, R> Either<L, R> {
    /// Wraps a value as the left option.
    pub fn with_left(l: L) -> (r: Self)
        ensures
            r == Either::<L, R>::Left(l),
    {
        Either::Left(l)
    }

    /// Wraps a value as the right option.
    pub fn with_right(value: R) -> (r: Self)
        ensures
            r == Either::<L, R>::Right(value),
    {
        Either::Right(value)
    }

    /// Applies the function to the object in case it contains the left
    /// option; otherwise, hands the right value through unchanged.
    pub fn map_left<F, T>(self, f: F) -> (r: Either<T, R>) where F: FnOnce(L) -> T
        requires
            self matches Either::Left(l) ==> call_requires(f, (l,)),
        ensures
            self matches Either::Left(l) ==> r matches Either::Left(t) && call_ensures(
                f,
                (l,),
                t,
            ),
            self matches Either::Right(x) ==> r == Either::<T, R>::Right(x),
    {
        match self {
            Either::Left(x) => Either::Left(f(x)),
            Either::Right(x) => Either::Right(x),
        }
    }

    /// Applies the function to the object in case it contains the right
    /// option; otherwise, hands the left value through unchanged.
    pub fn map_right<F, T>(self, f: F) -> (r: Either<L, T>) where F: FnOnce(R) -> T
        requires
            self matches Either::Right(x) ==> call_requires(f, (x,)),
        ensures
            self matches Either::Right(x) ==> r matches Either::Right(t) && call_ensures(
                f,
                (x,),
                t,
            ),
            self matches Either::Left(l) ==> r == Either::<L, T>::Left(l),
    {
        match self {
            Either::Left(x) => Either::Left(x),
            Either::Right(x) => Either::Right(f(x)),
        }
    }

    /// Applies the function that fits the contained option.
    pub fn map<FL, FR, T>(self, left: FL, right: FR) -> (r: T) where
        FL: FnOnce(L) -> T,
        FR: FnOnce(R) -> T,

        requires
            self matches Either::Left(l) ==> call_requires(left, (l,)),
            self matches Either::Right(x) ==> call_requires(right, (x,)),
        ensures
            self matches Either::Left(l) ==> call_ensures(left, (l,), r),
            self matches Either::Right(x) ==> call_ensures(right, (x,), r),
    {
        match self {
            Either::Left(x) => left(x),
            Either::Right(x) => right(x),
        }
    }
}

} // verus!
