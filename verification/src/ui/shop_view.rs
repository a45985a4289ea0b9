//! The shop's list of items, each in a box with its price.

use vstd::prelude::*;

use crate::shop::{item_description, item_name, ShopItem};
use crate::text::{decimal, decimal_string, pad_right, padded_right};
use super::{ItemBox, Tone};

verus! {

/// The first line of an item's box: its name in fourteen columns, then its
/// price in gold.
pub open spec fn item_top_text(item: ShopItem) -> Seq<char> {
    "  "@ + pad_right(item_name(item.kind), 14) + " "@ + decimal(item.price as nat) + "g"@
}

/// The second line of an item's box: its description.
pub open spec fn item_bottom_text(item: ShopItem) -> Seq<char> {
    "  "@ + item_description(item.kind) + "  "@
}

/// The highlight of item `i`: the cursor first, then items the player
/// cannot pay for.
pub open spec fn item_tone(item: ShopItem, i: int, cursor: usize, gold: u32) -> Tone {
    if i == cursor {
        Tone::Cursor
    } else if gold < item.price {
        Tone::Warning
    } else {
        Tone::Plain
    }
}

pub struct ShopView<'a> {
    pub items: &'a [ShopItem],
    pub gold: u32,
    pub cursor: usize,
}

impl<'a> ShopView<'a> {
    pub fn new(items: &'a [ShopItem], gold: u32, cursor: usize) -> (v: Self)
        ensures
            v.items@ == items@,
            v.gold == gold,
            v.cursor == cursor,
    {
        ShopView { items, gold, cursor }
    }

    /// One box per item, in order.
    pub fn boxes(&self) -> (v: Vec<ItemBox>)
        ensures
            v@.len() == self.items@.len(),
            forall|i: int|
                0 <= i < v@.len() ==> {
                    &&& (#[trigger] v@[i]).top@ == item_top_text(self.items@[i])
                    &&& v@[i].bottom@ == item_bottom_text(self.items@[i])
                    &&& v@[i].tone == item_tone(self.items@[i], i, self.cursor, self.gold)
                },
    {
        proof {
            reveal_strlit("  ");
            reveal_strlit(" ");
            reveal_strlit("g");
        }
        let mut v: Vec<ItemBox> = Vec::new();
        let mut i: usize = 0;
        while i < self.items.len()
            invariant
                i <= self.items@.len(),
                v@.len() == i,
                forall|k: int|
                    0 <= k < i ==> {
                        &&& (#[trigger] v@[k]).top@ == item_top_text(self.items@[k])
                        &&& v@[k].bottom@ == item_bottom_text(self.items@[k])
                        &&& v@[k].tone == item_tone(self.items@[k], k, self.cursor, self.gold)
                    },
            decreases self.items@.len() - i,
        {
            let item = &self.items[i];
            let mut top = String::from_str("  ");
            let name = padded_right(item.name(), 14);
            top.append(name.as_str());
            top.append(" ");
            let price = decimal_string(item.price as usize);
            top.append(price.as_str());
            top.append("g");
            let mut bottom = String::from_str("  ");
            let desc = item.description();
            bottom.append(desc.as_str());
            bottom.append("  ");
            let tone = if i == self.cursor {
                Tone::Cursor
            } else if self.gold < item.price {
                Tone::Warning
            } else {
                Tone::Plain
            };
            v.push(ItemBox { top, bottom, tone });
            i = i + 1;
        }
        v
    }
}

} // verus!
