//! Reading the items of a HID report descriptor.
//!
//! A report descriptor is a sequence of items. A short item is a prefix byte
//! followed by zero, one, two or four bytes of data: the two low bits of the
//! prefix give the number of data bytes, the six high bits the type and tag
//! of the item. A long item starts with the prefix `0xFE`, a byte that gives
//! the number of data bytes and a tag byte.
//!
//! The reader follows the two global items that lay out a report, Report
//! Size and Report Count, and collects for every Input item the layout that
//! is in force where it stands.

use vstd::prelude::*;

verus! {

/// Prefix of a long item.
pub const LONG_ITEM: u8 = 0xFE;

/// Type and tag of the main item Input.
pub const INPUT: u8 = 0x20;

/// Type and tag of the global item Report Size.
pub const REPORT_SIZE: u8 = 0x1D;

/// Type and tag of the global item Report Count.
pub const REPORT_COUNT: u8 = 0x25;

/// Type and tag of the global item Push.
pub const PUSH: u8 = 0x29;

/// Type and tag of the global item Pop.
pub const POP: u8 = 0x2D;

/// What one Input item declares: `count` fields of `size` bits each.
#[derive(Debug, Clone, Copy, PartialEq, Eq, Structural)]
pub struct InputItem {
    pub size: u32,
    pub count: u32,
}

/// Type and tag of a short item, the six high bits of its prefix.
pub open spec fn item_kind(prefix: u8) -> u8 {
    prefix / 4
}

/// Number of data bytes that follow the prefix of a short item.
pub open spec fn payload_len(prefix: u8) -> int {
    if prefix % 4 == 3 {
        4
    } else {
        (prefix % 4) as int
    }
}

/// Number of bytes, prefix included, that the item starting at `pos` claims.
pub open spec fn item_len(d: Seq<u8>, pos: int) -> int
    recommends
        0 <= pos < d.len(),
{
    if d[pos] == LONG_ITEM && pos + 1 < d.len() {
        3 + d[pos + 1]
    } else {
        1 + payload_len(d[pos])
    }
}

/// The data of the short item starting at `pos`, read as an unsigned number
/// with the low byte first.
pub open spec fn item_value(d: Seq<u8>, pos: int) -> u32
    recommends
        0 <= pos,
        pos + item_len(d, pos) <= d.len(),
{
    let n = payload_len(d[pos]);
    if n == 0 {
        0
    } else if n == 1 {
        d[pos + 1] as u32
    } else if n == 2 {
        (d[pos + 1] + 0x100 * d[pos + 2]) as u32
    } else {
        (d[pos + 1] + 0x100 * d[pos + 2] + 0x1_0000 * d[pos + 3] + 0x100_0000 * d[pos + 4]) as u32
    }
}

/// The Input items found from `pos` on, where Report Size is `size` and
/// Report Count is `count` on arrival. `None` where an item runs past the
/// end of the descriptor, or where a Push or Pop item is met, which this
/// reader does not follow.
pub open spec fn input_items_from(d: Seq<u8>, pos: int, size: u32, count: u32) -> Option<
    Seq<InputItem>,
>
    decreases d.len() - pos,
{
    if pos < 0 || pos >= d.len() {
        Some(Seq::empty())
    } else if pos + item_len(d, pos) > d.len() {
        None
    } else {
        let next = pos + item_len(d, pos);
        let kind = item_kind(d[pos]);
        if d[pos] == LONG_ITEM {
            input_items_from(d, next, size, count)
        } else if kind == PUSH || kind == POP {
            None
        } else if kind == REPORT_SIZE {
            input_items_from(d, next, item_value(d, pos), count)
        } else if kind == REPORT_COUNT {
            input_items_from(d, next, size, item_value(d, pos))
        } else if kind == INPUT {
            prepend(InputItem { size, count }, input_items_from(d, next, size, count))
        } else {
            input_items_from(d, next, size, count)
        }
    }
}

/// The Input items that a report descriptor declares, in the order in which
/// they stand. Report Size and Report Count are zero until an item sets them.
pub open spec fn input_items_of(d: Seq<u8>) -> Option<Seq<InputItem>> {
    input_items_from(d, 0, 0, 0)
}

/// `item` followed by the items of `rest`, where there are any.
pub open spec fn prepend(item: InputItem, rest: Option<Seq<InputItem>>) -> Option<Seq<InputItem>> {
    match rest {
        Some(items) => Some(seq![item] + items),
        None => None,
    }
}

/// The items of `head` followed by those of `rest`, where there are any.
pub open spec fn extend(head: Seq<InputItem>, rest: Option<Seq<InputItem>>) -> Option<
    Seq<InputItem>,
> {
    match rest {
        Some(items) => Some(head + items),
        None => None,
    }
}

/// Number of report bits that a list of Input items declares.
pub open spec fn declared_bits(items: Seq<InputItem>) -> nat
    decreases items.len(),
{
    if items.len() == 0 {
        0
    } else {
        declared_bits(items.drop_last()) + (items.last().size as nat) * (items.last().count as nat)
    }
}

/// Number of input bits that a report descriptor declares, where it can be
/// read.
pub open spec fn input_bits_of(d: Seq<u8>) -> Option<nat> {
    match input_items_of(d) {
        Some(items) => Some(declared_bits(items)),
        None => None,
    }
}

/// The bits declared by the first `n` items are among those declared by all.
pub proof fn lemma_declared_bits_grow(items: Seq<InputItem>, n: int)
    requires
        0 <= n <= items.len(),
    ensures
        declared_bits(items.take(n)) <= declared_bits(items),
    decreases items.len(),
{
    if n == items.len() {
        assert(items.take(n) =~= items);
    } else {
        assert(items.drop_last().take(n) =~= items.take(n));
        lemma_declared_bits_grow(items.drop_last(), n);
    }
}

/// Reads the Input items of a report descriptor.
pub fn input_items(desc: &[u8]) -> (r: Option<Vec<InputItem>>)
    ensures
        match r {
            Some(items) => input_items_of(desc@) == Some(items@),
            None => input_items_of(desc@) is None,
        },
{
    let mut items: Vec<InputItem> = Vec::new();
    let mut pos: usize = 0;
    let mut size: u32 = 0;
    let mut count: u32 = 0;
    while pos < desc.len()
        invariant
            pos <= desc.len(),
            input_items_of(desc@) == extend(items@, input_items_from(desc@, pos as int, size, count)),
        decreases desc.len() - pos,
    {
        let prefix = desc[pos];
        let left = desc.len() - pos;
        let code = prefix % 4;
        let payload: usize = if code == 3 {
            4
        } else {
            code as usize
        };
        let len: usize = if prefix == LONG_ITEM && left > 1 {
            3 + desc[pos + 1] as usize
        } else {
            1 + payload
        };
        if len > left {
            return None;
        }
        let kind = prefix / 4;
        let ghost before = items@;
        let ghost rest = input_items_from(desc@, pos as int + len as int, size, count);
        if prefix == LONG_ITEM {
            // A long item carries nothing that lays out a report.
        } else if kind == PUSH || kind == POP {
            return None;
        } else if kind == REPORT_SIZE || kind == REPORT_COUNT {
            let mut value: u32 = 0;
            if payload >= 1 {
                value = desc[pos + 1] as u32;
            }
            if payload >= 2 {
                value = value + 0x100 * (desc[pos + 2] as u32);
            }
            if payload == 4 {
                value = value + 0x1_0000 * (desc[pos + 3] as u32) + 0x100_0000 * (desc[pos
                    + 4] as u32);
            }
            if kind == REPORT_SIZE {
                size = value;
            } else {
                count = value;
            }
        } else if kind == INPUT {
            items.push(InputItem { size, count });
            assert(extend(before, prepend(InputItem { size, count }, rest)) == extend(
                items@,
                rest,
            )) by {
                if let Some(tail) = rest {
                    assert(before + (seq![InputItem { size, count }] + tail) =~= items@ + tail);
                }
            }
        }
        pos = pos + len;
    }
    assert(items@ + Seq::<InputItem>::empty() =~= items@);
    Some(items)
}

/// Adds up the input bits that a report descriptor declares. `None` where the
/// descriptor cannot be read or the sum does not fit the result.
pub fn input_bits(desc: &[u8]) -> (r: Option<u64>)
    ensures
        r == match input_bits_of(desc@) {
            Some(bits) => if bits <= u64::MAX {
                Some(bits as u64)
            } else {
                None
            },
            None => None,
        },
{
    let items = match input_items(desc) {
        Some(items) => items,
        None => {
            return None;
        },
    };
    let mut bits: u64 = 0;
    let mut i: usize = 0;
    while i < items.len()
        invariant
            i <= items.len(),
            input_items_of(desc@) == Some(items@),
            bits == declared_bits(items@.take(i as int)),
        decreases items.len() - i,
    {
        let item = items[i];
        let size = item.size as u64;
        let count = item.count as u64;
        assert(size * count <= 0xffff_ffff * 0xffff_ffff) by (nonlinear_arith)
            requires
                0 <= size <= 0xffff_ffff,
                0 <= count <= 0xffff_ffff,
        ;
        proof {
            assert(items@.take(i + 1).drop_last() =~= items@.take(i as int));
            assert(items@.take(i + 1).last() == item);
            assert(declared_bits(items@.take(i + 1)) == bits + size * count);
            lemma_declared_bits_grow(items@, i + 1);
        }
        match bits.checked_add(size * count) {
            Some(sum) => {
                bits = sum;
            },
            None => {
                return None;
            },
        }
        i = i + 1;
    }
    assert(items@.take(i as int) =~= items@);
    Some(bits)
}

} // verus!
