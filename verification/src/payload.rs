//! Structured payload generation: a run of records with fields derived from
//! their index, including a decimal rendering of the index in each name.

use vstd::prelude::*;
use vstd::string::StringExecFns;

verus! {

/// The decimal digit character for a value below ten.
pub open spec fn spec_digit(d: nat) -> char
    recommends
        d < 10,
{
    if d == 0 {
        '0'
    } else if d == 1 {
        '1'
    } else if d == 2 {
        '2'
    } else if d == 3 {
        '3'
    } else if d == 4 {
        '4'
    } else if d == 5 {
        '5'
    } else if d == 6 {
        '6'
    } else if d == 7 {
        '7'
    } else if d == 8 {
        '8'
    } else {
        '9'
    }
}

/// The decimal representation of a natural number, most significant digit
/// first, with no leading zeros (a lone zero for 0).
pub open spec fn spec_decimal(n: nat) -> Seq<char>
    decreases n,
{
    if n < 10 {
        seq![spec_digit(n)]
    } else {
        spec_decimal(n / 10).push(spec_digit(n % 10))
    }
}

/// The name of the item at index `i`: "item-" followed by `i` in decimal.
pub open spec fn spec_item_name(i: nat) -> Seq<char> {
    "item-"@ + spec_decimal(i)
}

fn digit_str(d: usize) -> (s: &'static str)
    requires
        d < 10,
    ensures
        s@ =~= seq![spec_digit(d as nat)],
{
    proof {
        reveal_strlit("0");
        reveal_strlit("1");
        reveal_strlit("2");
        reveal_strlit("3");
        reveal_strlit("4");
        reveal_strlit("5");
        reveal_strlit("6");
        reveal_strlit("7");
        reveal_strlit("8");
        reveal_strlit("9");
    }
    if d == 0 {
        "0"
    } else if d == 1 {
        "1"
    } else if d == 2 {
        "2"
    } else if d == 3 {
        "3"
    } else if d == 4 {
        "4"
    } else if d == 5 {
        "5"
    } else if d == 6 {
        "6"
    } else if d == 7 {
        "7"
    } else if d == 8 {
        "8"
    } else {
        "9"
    }
}

/// Renders `n` in decimal, digit by digit from the most significant end.
pub fn decimal_string(n: usize) -> (s: String)
    ensures
        s@ == spec_decimal(n as nat),
    decreases n,
{
    if n < 10 {
        let s = String::from_str(digit_str(n));
        assert(s@ =~= spec_decimal(n as nat));
        s
    } else {
        let mut s = decimal_string(n / 10);
        s.append(digit_str(n % 10));
        assert(s@ =~= spec_decimal(n as nat));
        s
    }
}

/// One record of the generated payload.
pub struct Item {
    pub id: usize,
    pub name: String,
    pub value: usize,
    pub active: bool,
}

/// The fields every generated item derives from its index: the index itself,
/// a name carrying the index in decimal, 42 times the index, and whether the
/// index is even.
pub open spec fn spec_item_ok(item: Item, i: int) -> bool {
    &&& item.id == i
    &&& item.name@ == spec_item_name(i as nat)
    &&& item.value == 42 * i
    &&& item.active == (i % 2 == 0)
}

/// Builds the item at index `i`.
pub fn make_item(i: usize) -> (item: Item)
    requires
        42 * (i as int) <= usize::MAX as int,
    ensures
        spec_item_ok(item, i as int),
{
    let mut name = String::from_str("item-");
    let digits = decimal_string(i);
    name.append(digits.as_str());
    proof {
        assert(name@ =~= spec_item_name(i as nat));
    }
    Item { id: i, name, value: i * 42, active: i % 2 == 0 }
}

/// Produces `size` items indexed 0 up to `size - 1`, in index order.
pub fn generate_items(size: usize) -> (items: Vec<Item>)
    requires
        42 * (size as int) <= usize::MAX as int,
    ensures
        items.len() == size,
        forall|i: int| 0 <= i < size ==> spec_item_ok(#[trigger] items[i], i),
{
    let mut items: Vec<Item> = Vec::new();
    let mut idx: usize = 0;
    while idx < size
        invariant
            idx <= size,
            items.len() == idx,
            forall|i: int| 0 <= i < idx ==> spec_item_ok(#[trigger] items[i], i),
            42 * (size as int) <= usize::MAX as int,
        decreases size - idx,
    {
        let item = make_item(idx);
        items.push(item);
        idx = idx + 1;
    }
    items
}

} // verus!
