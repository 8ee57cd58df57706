//! Keys that a configuration line may leave out.

use vstd::prelude::*;
use vstd::string::StringExecFns;
use crate::text::Render;

verus! {

/// A key of a configuration line that is either left out, or written as a
/// value between two fixed affixes.
///
/// The affixes belong to the place in the line where the key stands, such as
/// `";uses="` in front and nothing behind. They are set when the key is added
/// and are not meant to be edited afterwards.
#[derive(Clone, Debug, PartialEq)]
pub enum MythicOption<T> {
    /// The key is left out of the line.
    Absent,
    /// The key is written: the text in front, the value, the text behind.
    Present(String, T, String),
}

impl<T> MythicOption<T> {
    /// Whether the key is written as `value` between `pre` and `suf`.
    pub open spec fn holds(self, pre: Seq<char>, value: T, suf: Seq<char>) -> bool {
        self matches MythicOption::Present(p, v, s) && p@ == pre && v == value && s@ == suf
    }

    /// A key that is written as `value` between `pre` and `suf`.
    pub fn present(pre: &str, value: T, suf: &str) -> (r: MythicOption<T>)
        ensures
            r.holds(pre@, value, suf@),
    {
        MythicOption::Present(String::from_str(pre), value, String::from_str(suf))
    }

    /// Gives access to the parts of a key that is present: the text in front,
    /// the value and the text behind. What is written through them is what the
    /// key holds afterwards.
    pub fn some(&mut self) -> (parts: Option<(&mut String, &mut T, &mut String)>)
        ensures
            *old(self) is Absent ==> parts is None && *final(self) == *old(self),
            *old(self) is Present ==> (parts matches Some((pre, value, suf))
                && *pre == old(self)->Present_0 && *value == old(self)->Present_1
                && *suf == old(self)->Present_2
                && *final(self) == MythicOption::Present(*final(pre), *final(value), *final(suf))),
    {
        match self {
            MythicOption::Absent => None,
            MythicOption::Present(pre, value, suf) => Some((pre, value, suf)),
        }
    }
}

impl<T: Render> Render for MythicOption<T> {
    /// Nothing for a key that is left out; else the text in front, the text of
    /// the value and the text behind, in this order.
    open spec fn text(&self) -> Seq<char> {
        match self {
            MythicOption::Absent => Seq::empty(),
            MythicOption::Present(pre, value, suf) => pre@ + value.text() + suf@,
        }
    }

    fn render(&self) -> (out: String) {
        match self {
            MythicOption::Absent => String::new(),
            MythicOption::Present(pre, value, suf) => {
                let mut out = pre.clone();
                let piece = value.render();
                out.append(piece.as_str());
                out.append(suf.as_str());
                out
            },
        }
    }
}

/// The text of a key that is left out is empty. The text of a key that is
/// written is the text in front, the text of the value and the text behind,
/// whatever the three are.
pub proof fn lemma_presence<T: Render>(pre: String, value: T, suf: String)
    ensures
        MythicOption::<T>::Absent.text().len() == 0,
        MythicOption::Present(pre, value, suf).text() == pre@ + value.text() + suf@,
{
}

impl<T> Default for MythicOption<T> {
    /// A key starts out absent.
    fn default() -> (r: MythicOption<T>)
        ensures
            r is Absent,
    {
        MythicOption::Absent
    }
}

} // verus!
