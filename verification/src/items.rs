//! The catalog of game items and recipes.

use crate::helper::VecMap;
use vstd::prelude::*;
use vstd::string::StringExecFns;

verus! {

/// The kind of thing an item is.
#[derive(Clone, Copy, Debug, PartialEq, Eq, Structural)]
pub enum ItemType {
    Placeholder,
    Solid,
    Fluid,
    Gas,
    Energy,
}

#[derive(Clone, Debug, PartialEq, Eq)]
pub struct Item {
    /// The id, given by the catalog on insertion.
    pub id: u32,
    pub ty: ItemType,
    /// The registry name; unique in a catalog.
    pub name: String,
    /// The internationalised name.
    pub i18n: String,
    /// The localised name.
    pub l10n: String,
    pub max_stack: u64,
    pub description: String,
}

#[derive(Clone, Debug)]
pub struct Recipe {
    pub id: u32,
    pub name: Option<String>,
    /// Amount by item id of what goes in.
    pub material: VecMap<u32, u64>,
    /// Amount by item id of what comes out.
    pub products: VecMap<u32, u64>,
    /// Time to make, in ticks.
    pub timecost: u64,
}

/// The three strings by which an item can be looked up.
#[derive(Clone, Copy, Debug, PartialEq, Eq, Structural)]
pub enum ItemKey {
    Name,
    I18n,
    L10n,
}

/// The string of an item under a key.
pub open spec fn key_of(item: Item, key: ItemKey) -> Seq<char> {
    match key {
        ItemKey::Name => item.name@,
        ItemKey::I18n => item.i18n@,
        ItemKey::L10n => item.l10n@,
    }
}

/// The position of the last of `items` whose string under `key` is `text`.
pub open spec fn last_with(items: Seq<Item>, key: ItemKey, text: Seq<char>) -> Option<int>
    decreases items.len(),
{
    if items.len() == 0 {
        None
    } else if key_of(items.last(), key) == text {
        Some(items.len() - 1)
    } else {
        last_with(items.drop_last(), key, text)
    }
}

/// The id of the item at a position of the catalog.
pub open spec fn id_at(position: int) -> u32 {
    (position % 0x1_0000_0000) as u32
}

/// The message of the error for a name that is taken.
pub open spec fn name_taken_message(name: Seq<char>) -> Seq<char> {
    "Item with name '"@ + name + "' already exists!"@
}

/// Words the error for a name that is taken.
fn format_name_taken(name: &String) -> (r: String)
    ensures
        r@ == name_taken_message(name@),
{
    let mut message = String::from_str("Item with name '");
    message.append(name.as_str());
    message.append("' already exists!");
    message
}

/// The items of the game, each under the id of its position, with no name
/// twice.
pub struct ItemManager {
    items: Vec<Item>,
}

impl ItemManager {
    /// The items in the order of their ids.
    pub closed spec fn view(&self) -> Seq<Item> {
        self.items@
    }

    /// Every item carries the id of its position, and no two have the same
    /// name.
    pub open spec fn wf(&self) -> bool {
        &&& forall|i: int| 0 <= i < self@.len() ==> (#[trigger] self@[i]).id == id_at(i)
        &&& forall|i: int, j: int|
            0 <= i < j < self@.len() ==> (#[trigger] self@[i]).name@ != (#[trigger] self@[j]).name@
    }

    pub fn new() -> (r: Self)
        ensures
            r@ == Seq::<Item>::empty(),
            r.wf(),
    {
        ItemManager { items: Vec::new() }
    }

    /// The position of the last item whose string under `key` is `text`.
    fn find(&self, key: ItemKey, text: &str) -> (r: Option<usize>)
        ensures
            match r {
                Some(i) => last_with(self@, key, text@) == Some(i as int) && i < self@.len(),
                None => last_with(self@, key, text@) is None,
            },
    {
        let wanted: String = text.to_owned();
        let mut i: usize = self.items.len();
        assert(self.items@.take(i as int) =~= self.items@);
        while i > 0
            invariant
                i <= self.items@.len(),
                wanted@ == text@,
                last_with(self@, key, text@) == last_with(self.items@.take(i as int), key, text@),
            decreases i,
        {
            let item = &self.items[i - 1];
            let found = match key {
                ItemKey::Name => item.name == wanted,
                ItemKey::I18n => item.i18n == wanted,
                ItemKey::L10n => item.l10n == wanted,
            };
            assert(self.items@.take(i as int).drop_last() =~= self.items@.take(i - 1));
            if found {
                return Some(i - 1);
            }
            i -= 1;
        }
        None
    }

    /// Adds an item under the next id, unless its name is taken. The id that
    /// the item comes with is ignored.
    pub fn insert(&mut self, item: Item) -> (r: Result<(), String>)
        requires
            old(self).wf(),
        ensures
            final(self).wf(),
            match r {
                Ok(_) => {
                    &&& last_with(old(self)@, ItemKey::Name, item.name@) is None
                    &&& final(self)@ == old(self)@.push(
                        Item { id: id_at(old(self)@.len() as int), ..item },
                    )
                },
                Err(message) => {
                    &&& last_with(old(self)@, ItemKey::Name, item.name@) is Some
                    &&& final(self)@ == old(self)@
                    &&& message@ == name_taken_message(item.name@)
                },
            },
    {
        if self.find(ItemKey::Name, item.name.as_str()).is_some() {
            return Err(format_name_taken(&item.name));
        }
        proof {
            lemma_last_with(self@, ItemKey::Name, item.name@);
        }
        let mut item = item;
        let n: u64 = self.items.len() as u64;
        item.id = (n % 0x1_0000_0000) as u32;
        self.items.push(item);
        Ok(())
    }

    pub fn get_by_id(&self, id: u32) -> (r: Option<&Item>)
        ensures
            r == if id < self@.len() {
                Some(&self@[id as int])
            } else {
                None
            },
    {
        let i = id as usize;
        if i < self.items.len() {
            Some(&self.items[i])
        } else {
            None
        }
    }

    fn get_by(&self, key: ItemKey, text: &str) -> (r: Option<&Item>)
        ensures
            r == match last_with(self@, key, text@) {
                Some(i) => Some(&self@[i]),
                None => None,
            },
    {
        match self.find(key, text) {
            Some(i) => Some(&self.items[i]),
            None => None,
        }
    }

    fn id_by(&self, key: ItemKey, text: &str) -> (r: Option<u32>)
        ensures
            r == match last_with(self@, key, text@) {
                Some(i) => Some(self@[i].id),
                None => None,
            },
    {
        match self.find(key, text) {
            Some(i) => Some(self.items[i].id),
            None => None,
        }
    }

    /// The item of that name.
    pub fn get_by_name(&self, name: &str) -> (r: Option<&Item>)
        ensures
            r == match last_with(self@, ItemKey::Name, name@) {
                Some(i) => Some(&self@[i]),
                None => None,
            },
    {
        self.get_by(ItemKey::Name, name)
    }

    /// The item that was last added under that internationalised name.
    pub fn get_by_i18n(&self, i18n: &str) -> (r: Option<&Item>)
        ensures
            r == match last_with(self@, ItemKey::I18n, i18n@) {
                Some(i) => Some(&self@[i]),
                None => None,
            },
    {
        self.get_by(ItemKey::I18n, i18n)
    }

    /// The item that was last added under that localised name.
    pub fn get_by_l10n(&self, l10n: &str) -> (r: Option<&Item>)
        ensures
            r == match last_with(self@, ItemKey::L10n, l10n@) {
                Some(i) => Some(&self@[i]),
                None => None,
            },
    {
        self.get_by(ItemKey::L10n, l10n)
    }

    pub fn id_by_name(&self, name: &str) -> (r: Option<u32>)
        ensures
            r == match last_with(self@, ItemKey::Name, name@) {
                Some(i) => Some(self@[i].id),
                None => None,
            },
    {
        self.id_by(ItemKey::Name, name)
    }

    pub fn id_by_i18n(&self, i18n: &str) -> (r: Option<u32>)
        ensures
            r == match last_with(self@, ItemKey::I18n, i18n@) {
                Some(i) => Some(self@[i].id),
                None => None,
            },
    {
        self.id_by(ItemKey::I18n, i18n)
    }

    pub fn id_by_l10n(&self, l10n: &str) -> (r: Option<u32>)
        ensures
            r == match last_with(self@, ItemKey::L10n, l10n@) {
                Some(i) => Some(self@[i].id),
                None => None,
            },
    {
        self.id_by(ItemKey::L10n, l10n)
    }
}

/// `last_with` finds the greatest matching position, and finds one whenever
/// some item matches.
pub proof fn lemma_last_with(items: Seq<Item>, key: ItemKey, text: Seq<char>)
    ensures
        match last_with(items, key, text) {
            Some(i) => 0 <= i < items.len() && key_of(items[i], key) == text && forall|j: int|
                i < j < items.len() ==> key_of(#[trigger] items[j], key) != text,
            None => forall|j: int| 0 <= j < items.len() ==> key_of(#[trigger] items[j], key) != text,
        },
    decreases items.len(),
{
    if items.len() > 0 && key_of(items.last(), key) != text {
        let head = items.drop_last();
        lemma_last_with(head, key, text);
        assert forall|j: int| 0 <= j < head.len() implies head[j] == items[j] by {}
    }
}

} // verus!
