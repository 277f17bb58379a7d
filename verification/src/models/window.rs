//! What windows have in common.
use vstd::prelude::*;

use crate::geometry::Rect;
use crate::text::characters;

verus! {

/// What is known of a native window.
pub struct NativeWindowProperties {
    pub title: String,
    pub class_name: String,
    pub process_name: String,
    pub frame: Rect,
    pub is_minimized: bool,
    pub is_maximized: bool,
}

/// What the user does with a window that is being dragged.
#[derive(Clone, Copy, Debug, PartialEq, Eq, Structural)]
pub enum ActiveDragOperation {
    Move,
    Resize,
}

/// A window that is being dragged. What the user does with it shows only once
/// the window has changed.
#[derive(Clone, Copy, Debug, PartialEq, Eq, Structural)]
pub struct ActiveDrag {
    pub operation: Option<ActiveDragOperation>,
}

/// How many characters a title may have before it is shortened in a label.
pub const LABEL_TITLE_CHARS: usize = 20;

/// How many characters of a title are left when it is shortened.
pub const LABEL_TITLE_KEPT: usize = 17;

/// The title as it is shown in a label.
pub open spec fn label_title(title: Seq<char>) -> Seq<char> {
    if title.len() > LABEL_TITLE_CHARS {
        title.take(LABEL_TITLE_KEPT as int) + "..."@
    } else {
        title
    }
}

/// No title takes more than its share of a label.
pub proof fn law_label_titles_are_short(title: Seq<char>)
    ensures
        label_title(title).len() <= LABEL_TITLE_CHARS,
{
    reveal_strlit("...");
}

/// The label that names a window in logs.
pub open spec fn label(id: Seq<char>, process: Seq<char>, class: Seq<char>, title: Seq<char>) -> Seq<
    char,
> {
    "Window(id="@ + id + ", process="@ + process + ", class="@ + class + ", title="@ + label_title(
        title,
    ) + ")"@
}

fn append_title(text: &mut String, title: &str)
    ensures
        final(text)@ == old(text)@ + label_title(title@),
{
    let chars = characters(title);
    if chars.len() <= LABEL_TITLE_CHARS {
        text.append(title);
        return;
    }
    let ghost before = text@;
    let mut i: usize = 0;
    while i < LABEL_TITLE_KEPT
        invariant
            chars@ == title@,
            i <= LABEL_TITLE_KEPT < chars.len(),
            text@ =~= before + title@.take(i as int),
        decreases LABEL_TITLE_KEPT - i,
    {
        text.push(chars[i]);
        i += 1;
    }
    text.append("...");
    assert(text@ =~= before + label_title(title@));
}

impl NativeWindowProperties {
    /// The label that names the window in logs, `id` being its native identity.
    pub fn label(&self, id: &str) -> (text: String)
        ensures
            text@ == label(id@, self.process_name@, self.class_name@, self.title@),
    {
        let mut text = String::from_str("Window(id=");
        text.append(id);
        text.append(", process=");
        text.append(self.process_name.as_str());
        text.append(", class=");
        text.append(self.class_name.as_str());
        text.append(", title=");
        append_title(&mut text, self.title.as_str());
        text.append(")");
        text
    }
}

/// A title of up to twenty characters stands in a label as it is. A longer one
/// is cut after seventeen, and three dots say so.
pub proof fn law_long_titles_end_in_dots(title: Seq<char>, i: int)
    requires
        0 <= i < label_title(title).len(),
    ensures
        title.len() <= 20 ==> label_title(title) == title,
        title.len() > 20 ==> label_title(title).len() == 20 && label_title(title)[i] == if i < 17 {
            title[i]
        } else {
            '.'
        },
{
    reveal_strlit("...");
}

} // verus!
