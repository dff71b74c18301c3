//! Numbers as text.

use vstd::prelude::*;

verus! {

/// The decimal digits of `n`, most significant first, without leading zeros.
pub open spec fn decimal(n: nat) -> Seq<char>
    decreases n,
{
    let last = ('0' as nat + n % 10) as char;
    if n < 10 {
        seq![last]
    } else {
        decimal(n / 10).push(last)
    }
}

/// The digit `d`, as text.
fn digit(d: usize) -> (text: &'static str)
    requires
        d < 10,
    ensures
        text@ == seq![('0' as nat + d as nat) as char],
{
    proof {
        reveal_strlit("0");
        reveal_strlit("1");
        reveal_strlit("2");
        reveal_strlit("3");
        reveal_strlit("4");
        reveal_strlit("5");
        reveal_strlit("6");
        reveal_strlit("7");
        reveal_strlit("8");
        reveal_strlit("9");
    }
    match d {
        0 => "0",
        1 => "1",
        2 => "2",
        3 => "3",
        4 => "4",
        5 => "5",
        6 => "6",
        7 => "7",
        8 => "8",
        _ => "9",
    }
}

/// Writes `n` in decimal.
pub fn write_decimal(n: usize) -> (text: String)
    ensures
        text@ == decimal(n as nat),
    decreases n,
{
    if n < 10 {
        digit(n).to_owned()
    } else {
        write_decimal(n / 10).concat(digit(n % 10))
    }
}

/// The digits of a number read back as that number, and no other digits do: there is at least one,
/// each is from `0` to `9`, and none is a leading zero.
pub proof fn law_decimal_reads_back(n: nat)
    ensures
        decimal(n).len() >= 1,
        decimal(n).fold_left(0int, |read: int, c: char| 10 * read + (c as int - '0' as int)) == n,
        forall|i: int| 0 <= i < decimal(n).len() ==> '0' <= #[trigger] decimal(n)[i] <= '9',
        decimal(n)[0] == '0' ==> decimal(n).len() == 1,
    decreases n,
{
    let step = |read: int, c: char| 10 * read + (c as int - '0' as int);
    let last = ('0' as nat + n % 10) as char;
    assert(last as int - '0' as int == n % 10);
    if n < 10 {
        assert(decimal(n) =~= Seq::empty().push(last));
        reveal_with_fuel(Seq::fold_left, 2);
    } else {
        law_decimal_reads_back(n / 10);
        assert(decimal(n).drop_last() =~= decimal(n / 10));
        assert(decimal(n).last() == last);
        assert(decimal(n).fold_left(0int, step) == step(
            decimal(n / 10).fold_left(0int, step),
            last,
        ));
        assert(decimal(n)[0] == decimal(n / 10)[0]);
        if decimal(n / 10)[0] == '0' {
            let only = decimal(n / 10);
            assert(only =~= Seq::empty().push('0'));
            reveal_with_fuel(Seq::fold_left, 2);
            assert(only.fold_left(0int, step) == 0);
        }
    }
}

/// What is written of a number reads back as that number, without leading zeros. So no two numbers
/// are written alike.
pub proof fn law_written_number_reads_back(n: usize, text: String)
    requires
        call_ensures(write_decimal, (n,), text),
    ensures
        text@.len() >= 1,
        text@.fold_left(0int, |read: int, c: char| 10 * read + (c as int - '0' as int)) == n,
        forall|i: int| 0 <= i < text@.len() ==> '0' <= #[trigger] text@[i] <= '9',
        text@[0] == '0' ==> text@.len() == 1,
{
    law_decimal_reads_back(n as nat);
}

} // verus!
