//! Static assets served by name.

use vstd::prelude::*;
use crate::text::same_text;

verus! {

/// The assets there are.
#[derive(Debug, Clone, Copy, PartialEq, Eq, Structural)]
pub enum Asset {
    /// The stylesheet `main.css`.
    MainCss,
}

/// The asset served under `asset_name`, if any (others are not found).
pub fn asset_for(asset_name: &str) -> (r: Option<Asset>)
    ensures
        r == (if asset_name@ == "main.css"@ {
            Some(Asset::MainCss)
        } else {
            None
        }),
{
    if same_text(asset_name, "main.css") {
        Some(Asset::MainCss)
    } else {
        None
    }
}

} // verus!
