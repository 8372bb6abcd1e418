use vstd::prelude::*;

use crate::draw::Draw;

verus! {

/// A clickable button.
pub struct Button {
    pub width: u8,
    pub height: u8,
    pub label: String,
}

/// A drop-down list of options.
pub struct SelectBox {
    pub width: u8,
    pub height: u8,
    pub options: Vec<String>,
}

impl Draw for Button {
    open spec fn drawn(&self) -> Seq<char> {
        "Draw Button"@
    }

    fn draw(&self) -> (r: String) {
        "Draw Button".to_owned()
    }
}

impl Draw for SelectBox {
    open spec fn drawn(&self) -> Seq<char> {
        "Draw SelectBox"@
    }

    fn draw(&self) -> (r: String) {
        "Draw SelectBox".to_owned()
    }
}

} // verus!
