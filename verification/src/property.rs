//! Property lists as the proxy settings use them: dictionaries from names to numbers, texts and
//! lists.

use crate::text;
use vstd::prelude::*;
use vstd::string::*;

verus! {

/// A value of a settings dictionary, as far as proxy settings tell values apart.
#[derive(Debug)]
pub enum PropertyValue {
    /// A number, where it is a 32-bit integer; `None` for any other number.
    Number(Option<i32>),
    Text(String),
    /// A list; an item that is no text is `None`.
    List(Vec<Option<String>>),
    /// A value of another type.
    Other,
}

/// What a [`PropertyValue`] stands for.
pub enum PropertyView {
    Number(Option<i32>),
    Text(Seq<char>),
    List(Seq<Option<Seq<char>>>),
    Other,
}

/// What an optional text stands for.
pub open spec fn optional_text(item: Option<String>) -> Option<Seq<char>> {
    match item {
        Some(s) => Some(s@),
        None => None,
    }
}

impl View for PropertyValue {
    type V = PropertyView;

    open spec fn view(&self) -> PropertyView {
        match self {
            PropertyValue::Number(n) => PropertyView::Number(*n),
            PropertyValue::Text(s) => PropertyView::Text(s@),
            PropertyValue::List(items) => PropertyView::List(
                items@.map_values(|item: Option<String>| optional_text(item)),
            ),
            PropertyValue::Other => PropertyView::Other,
        }
    }
}

/// The dictionary that a sequence of assignments leaves, each one overriding those before it.
pub open spec fn assigned(entries: Seq<(String, PropertyValue)>) -> Map<Seq<char>, PropertyView>
    decreases entries.len(),
{
    if entries.len() == 0 {
        Map::empty()
    } else {
        assigned(entries.drop_last()).insert(entries.last().0@, entries.last().1@)
    }
}

/// A dictionary, kept as the assignments that make it up.
#[derive(Debug)]
pub struct Dictionary {
    entries: Vec<(String, PropertyValue)>,
}

impl View for Dictionary {
    type V = Map<Seq<char>, PropertyView>;

    closed spec fn view(&self) -> Map<Seq<char>, PropertyView> {
        assigned(self.entries@)
    }
}

impl Dictionary {
    /// An empty dictionary.
    pub fn new() -> (dict: Dictionary)
        ensures
            dict@ == Map::<Seq<char>, PropertyView>::empty(),
    {
        Dictionary { entries: Vec::new() }
    }

    /// Sets the value of `key`, whether or not it has one.
    pub fn set(&mut self, key: String, value: PropertyValue)
        ensures
            final(self)@ == old(self)@.insert(key@, value@),
    {
        let ghost before = self.entries@;
        self.entries.push((key, value));
        proof {
            assert(self.entries@.drop_last() == before);
        }
    }

    /// The value of `key`.
    pub fn find(&self, key: &str) -> (found: Option<&PropertyValue>)
        ensures
            match found {
                Some(value) => self@.contains_key(key@) && self@[key@] == value@,
                None => !self@.contains_key(key@),
            },
    {
        let mut i: usize = self.entries.len();
        proof {
            assert(self.entries@.take(i as int) == self.entries@);
        }
        while i > 0
            invariant
                i <= self.entries.len(),
                self@.contains_key(key@) == assigned(self.entries@.take(i as int)).contains_key(
                    key@,
                ),
                self@.contains_key(key@) ==> self@[key@] == assigned(
                    self.entries@.take(i as int),
                )[key@],
            decreases i,
        {
            proof {
                let upto = self.entries@.take(i as int);
                assert(upto.drop_last() == self.entries@.take(i - 1));
                assert(upto.last() == self.entries@[i - 1]);
            }
            i = i - 1;
            if text::same_text(self.entries[i].0.as_str(), key) {
                return Some(&self.entries[i].1);
            }
        }
        proof {
            assert(self.entries@.take(0) == Seq::<(String, PropertyValue)>::empty());
        }
        None
    }

    /// The assignments, in order: a later one overrides an earlier one of the same key.
    pub fn entries(&self) -> (entries: &Vec<(String, PropertyValue)>)
        ensures
            assigned(entries@) == self@,
    {
        &self.entries
    }
}

impl Clone for PropertyValue {
    fn clone(&self) -> (copy: PropertyValue)
        ensures
            copy@ == self@,
    {
        match self {
            PropertyValue::Number(n) => PropertyValue::Number(*n),
            PropertyValue::Text(s) => PropertyValue::Text(s.clone()),
            PropertyValue::List(items) => {
                let copy = items.clone();
                proof {
                    assert(copy@.map_values(|item: Option<String>| optional_text(item))
                        =~= items@.map_values(|item: Option<String>| optional_text(item)));
                }
                PropertyValue::List(copy)
            },
            PropertyValue::Other => PropertyValue::Other,
        }
    }
}

impl Clone for Dictionary {
    fn clone(&self) -> (copy: Dictionary)
        ensures
            copy@ == self@,
    {
        let mut copy = Dictionary::new();
        let mut i: usize = 0;
        proof {
            assert(self.entries@.take(0) == Seq::<(String, PropertyValue)>::empty());
        }
        while i < self.entries.len()
            invariant
                i <= self.entries.len(),
                copy@ == assigned(self.entries@.take(i as int)),
            decreases self.entries.len() - i,
        {
            proof {
                let next = self.entries@.take(i + 1);
                assert(next.drop_last() == self.entries@.take(i as int));
                assert(next.last() == self.entries@[i as int]);
            }
            copy.set(self.entries[i].0.clone(), self.entries[i].1.clone());
            i = i + 1;
        }
        proof {
            assert(self.entries@.take(i as int) == self.entries@);
        }
        copy
    }
}

} // verus!
