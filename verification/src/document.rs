//! Plain data about a rendered document.

use vstd::prelude::*;

verus! {

/// The condition under which a node takes external children, and the node
/// that they are set at.
#[derive(Debug, PartialEq, Eq)]
pub struct ExternalChildrenCondition {
    pub condition: Vec<String>,
    pub set_at: String,
}

impl Default for ExternalChildrenCondition {
    fn default() -> (r: ExternalChildrenCondition)
        ensures
            r.condition@.len() == 0,
            r.set_at@.len() == 0,
    {
        ExternalChildrenCondition { condition: Vec::new(), set_at: String::new() }
    }
}

/// What of a node depends on a variable.
#[derive(Debug, PartialEq, Eq, Clone, Copy, Structural)]
pub enum DependencyType {
    Style,
    Visible,
    Value,
    Variable,
}

/// An entry of the table of headings of a page, with the entries below it.
#[derive(Debug, PartialEq, Eq)]
pub struct PageHeadingItemCompat {
    pub url: Option<String>,
    pub number: Option<String>,
    pub title: Option<String>,
    pub path: Option<String>,
    pub is_heading: bool,
    pub font_icon: Option<String>,
    pub is_disabled: bool,
    pub is_active: bool,
    pub is_open: bool,
    pub image_src: Option<String>,
    pub document: Option<String>,
    pub children: Vec<PageHeadingItemCompat>,
}

} // verus!
