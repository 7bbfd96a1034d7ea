//! What a producer renders, what a bar sends back, and the producer interface.

use vstd::prelude::*;

verus! {

/// How the text of a snapshot is marked up.
#[derive(Debug, Clone, Copy, PartialEq, Eq)]
pub enum Markup {
    Pango,
}

impl Markup {
    /// The protocol name of the markup.
    pub fn as_str(&self) -> (r: &'static str)
        ensures
            r@ == markup_name(*self),
    {
        match self {
            Markup::Pango => "pango",
        }
    }
}

/// The protocol name of a markup.
pub open spec fn markup_name(m: Markup) -> Seq<char> {
    match m {
        Markup::Pango => "pango"@,
    }
}

/// One producer's output for a tick.
#[derive(Debug, Clone, PartialEq, Eq)]
pub struct I3Block {
    pub full_text: String,
    pub short_text: Option<String>,
    pub color: Option<String>,
    pub name: String,
    pub markup: Option<Markup>,
    pub tooltip: Option<String>,
}

/// The text of an optional string, for contracts.
pub open spec fn opt_view(o: Option<String>) -> Option<Seq<char>> {
    match o {
        Some(s) => Some(s@),
        None => None,
    }
}

/// A copy of an optional string.
pub fn copy_opt(o: &Option<String>) -> (r: Option<String>)
    ensures
        r == *o,
{
    match o {
        Some(s) => Some(s.clone()),
        None => None,
    }
}

impl I3Block {
    /// A snapshot with the given text and every other field empty.
    pub fn text(full_text: String) -> (r: I3Block)
        ensures
            r.full_text == full_text,
            r.short_text is None,
            r.color is None,
            r.name@ == Seq::<char>::empty(),
            r.markup is None,
            r.tooltip is None,
    {
        I3Block {
            full_text,
            short_text: None,
            color: None,
            name: String::new(),
            markup: None,
            tooltip: None,
        }
    }

    /// A copy of this snapshot, field for field.
    pub fn copy(&self) -> (r: I3Block)
        ensures
            r == *self,
    {
        I3Block {
            full_text: self.full_text.clone(),
            short_text: copy_opt(&self.short_text),
            color: copy_opt(&self.color),
            name: self.name.clone(),
            markup: self.markup,
            tooltip: copy_opt(&self.tooltip),
        }
    }
}

impl Default for I3Block {
    fn default() -> (r: I3Block)
        ensures
            r.full_text@ == Seq::<char>::empty(),
            r.short_text is None,
            r.color is None,
            r.name@ == Seq::<char>::empty(),
            r.markup is None,
            r.tooltip is None,
    {
        I3Block::text(String::new())
    }
}

/// A click or scroll on a bar entry: `name` is the entry's position as text,
/// `button` the mouse button.
#[derive(Debug, Clone, PartialEq, Eq)]
pub struct I3Event {
    pub name: Option<String>,
    pub button: u8,
}

impl Default for I3Event {
    fn default() -> (r: I3Event)
        ensures
            r.name is None,
            r.button == 0,
    {
        I3Event { name: None, button: 0 }
    }
}

/// A source of bar entries. `render` returns at once with the latest state,
/// or `None` to leave the producer out of the frame; `click` hands it an event.
pub trait Block {
    fn render(&self) -> Option<I3Block>;

    fn click(&self, event: &I3Event);
}

} // verus!
