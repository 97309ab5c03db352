//! The line of key hints under the views.

use vstd::prelude::*;

verus! {

/// The footer: one line that names the keys and what they do.
#[derive(Clone, Copy, Debug, PartialEq, Eq)]
pub struct Footer;

/// How many hints the footer shows.
pub const FOOTER_HINTS: usize = 5;

impl Footer {
    /// The footer.
    pub fn new() -> (footer: Self)
        ensures
            footer == Footer,
    {
        Self {  }
    }

    /// The hints in the order in which they are shown: quit, move, next
    /// interface, play or pause, details.
    pub fn hints(&self) -> (hints: Vec<&'static str>)
        ensures
            hints@.len() == FOOTER_HINTS,
            hints@[0]@ == "q: sair  "@,
            hints@[1]@ == "j/k ou \u{2193}/\u{2191}: navegar  "@,
            hints@[2]@ == "i: interface  "@,
            hints@[3]@ == "p: play/pause  "@,
            hints@[4]@ == "enter: detalhes"@,
    {
        let mut hints: Vec<&'static str> = Vec::new();
        hints.push("q: sair  ");
        hints.push("j/k ou \u{2193}/\u{2191}: navegar  ");
        hints.push("i: interface  ");
        hints.push("p: play/pause  ");
        hints.push("enter: detalhes");
        hints
    }
}

} // verus!
