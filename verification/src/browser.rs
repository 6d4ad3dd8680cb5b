use vstd::prelude::*;

use crate::command::KeyCommand;

verus! {

/// What the browser loop asks its surroundings to do after one command.
#[derive(Debug)]
pub enum BrowserAction {
    /// Nothing to do beyond the next redraw.
    Continue,
    /// Report the given entry name as selected.
    Report(String),
    /// Prompt for a file name, create the file, and refresh the listing.
    PromptCreate,
    /// Leave the loop.
    Quit,
}

/// Whether a selection index is in range for a listing of length `len`:
/// an empty listing pins the index at zero, otherwise the index is a valid
/// position.
pub open spec fn in_range(len: nat, sel: int) -> bool {
    if len == 0 {
        sel == 0
    } else {
        0 <= sel < len
    }
}

/// How one command moves the selection index over a listing of length
/// `len`: down saturates at the last position, up saturates at zero, and
/// every other command leaves the index alone.
pub open spec fn nav_index(len: nat, sel: int, cmd: KeyCommand) -> int {
    match cmd {
        KeyCommand::MoveDown => if sel + 1 < len {
            sel + 1
        } else if len == 0 {
            0
        } else {
            len - 1
        },
        KeyCommand::MoveUp => if sel <= 0 {
            0
        } else {
            sel - 1
        },
        _ => sel,
    }
}

/// The selection index after a whole sequence of commands, applied in
/// order.
pub open spec fn nav_index_all(len: nat, sel: int, cmds: Seq<KeyCommand>) -> int
    decreases cmds.len(),
{
    if cmds.len() == 0 {
        sel
    } else {
        nav_index_all(len, nav_index(len, sel, cmds[0]), cmds.drop_first())
    }
}

/// Where the selection lands when the listing is replaced: it is kept when
/// still valid for the new length, and reset to the top otherwise.
pub open spec fn clamp_index(len: nat, sel: int) -> int {
    if 0 <= sel < len {
        sel
    } else {
        0
    }
}

/// How many times `name` occurs in a listing.
pub open spec fn count_name(names: Seq<Seq<char>>, name: Seq<char>) -> nat
    decreases names.len(),
{
    if names.len() == 0 {
        0
    } else {
        (if names[0] == name {
            1nat
        } else {
            0nat
        }) + count_name(names.drop_first(), name)
    }
}

/// How one listing entry is rendered: the selected entry carries the
/// marker prefix, every other entry the neutral prefix.
pub open spec fn rendered_line(name: Seq<char>, marked: bool) -> Seq<char> {
    if marked {
        "> "@ + name
    } else {
        "  "@ + name
    }
}

/// The browser's state: the listing, in directory order, and the selection
/// index.
pub struct Browser {
    entries: Vec<String>,
    selected: usize,
}

impl Browser {
    /// The listing, each entry as its sequence of characters.
    pub closed spec fn names(self) -> Seq<Seq<char>> {
        self.entries.deep_view()
    }

    /// The selection index.
    pub closed spec fn sel(self) -> int {
        self.selected as int
    }

    /// The browser's invariant: the selection index is in range for the
    /// listing.
    pub open spec fn wf(self) -> bool {
        in_range(self.names().len(), self.sel())
    }

    /// A browser over the given listing, with the selection at the top.
    pub fn new(entries: Vec<String>) -> (b: Browser)
        ensures
            b.wf(),
            b.names() == entries.deep_view(),
            b.sel() == 0,
    {
        Browser { entries, selected: 0 }
    }

    /// The current listing, in order.
    pub fn entries(&self) -> (r: &Vec<String>)
        ensures
            r.deep_view() == self.names(),
    {
        &self.entries
    }

    /// The current selection index.
    pub fn selected_index(&self) -> (i: usize)
        ensures
            i == self.sel(),
    {
        self.selected
    }

    /// Move the selection one entry down, saturating at the last entry.
    pub fn move_down(&mut self)
        requires
            old(self).wf(),
        ensures
            final(self).wf(),
            final(self).names() == old(self).names(),
            final(self).sel() == nav_index(old(self).names().len(), old(self).sel(), KeyCommand::MoveDown),
    {
        let len = self.entries.len();
        if self.selected + 1 < len {
            self.selected = self.selected + 1;
        }
    }

    /// Move the selection one entry up, saturating at the top.
    pub fn move_up(&mut self)
        requires
            old(self).wf(),
        ensures
            final(self).wf(),
            final(self).names() == old(self).names(),
            final(self).sel() == nav_index(old(self).names().len(), old(self).sel(), KeyCommand::MoveUp),
    {
        if self.selected > 0 {
            self.selected = self.selected - 1;
        }
    }

    /// The name under the selection: the entry at the selection index, or
    /// nothing when the listing is empty.
    pub fn selected_name(&self) -> (r: Option<String>)
        requires
            self.wf(),
        ensures
            match r {
                Some(name) => self.names().len() > 0 && name@ == self.names()[self.sel()],
                None => self.names().len() == 0,
            },
    {
        if self.entries.len() == 0 {
            None
        } else {
            Some(self.entries[self.selected].clone())
        }
    }

    /// Replace the listing wholesale with a freshly read one, keeping the
    /// selection when it is still valid for the new length and resetting it
    /// to the top otherwise.
    pub fn refresh(&mut self, new_entries: Vec<String>)
        requires
            old(self).wf(),
        ensures
            final(self).wf(),
            final(self).names() == new_entries.deep_view(),
            final(self).sel() == clamp_index(new_entries.deep_view().len(), old(self).sel()),
    {
        if self.selected >= new_entries.len() {
            self.selected = 0;
        }
        self.entries = new_entries;
    }

    /// Apply one command: move the selection as `nav_index` says, and tell
    /// the caller what to do next — report the selected name, prompt for a
    /// file to create, leave the loop, or just carry on.
    pub fn apply(&mut self, cmd: KeyCommand) -> (act: BrowserAction)
        requires
            old(self).wf(),
        ensures
            final(self).wf(),
            final(self).names() == old(self).names(),
            final(self).sel() == nav_index(old(self).names().len(), old(self).sel(), cmd),
            cmd is Quit ==> act is Quit,
            cmd is CreateFile ==> act is PromptCreate,
            (cmd is MoveDown || cmd is MoveUp || cmd is Unknown) ==> act is Continue,
            cmd is Select && old(self).names().len() > 0 ==> (act matches BrowserAction::Report(name)
                && name@ == old(self).names()[old(self).sel()]),
            cmd is Select && old(self).names().len() == 0 ==> act is Continue,
    {
        match cmd {
            KeyCommand::MoveDown => {
                self.move_down();
                BrowserAction::Continue
            },
            KeyCommand::MoveUp => {
                self.move_up();
                BrowserAction::Continue
            },
            KeyCommand::Select => {
                match self.selected_name() {
                    Some(name) => BrowserAction::Report(name),
                    None => BrowserAction::Continue,
                }
            },
            KeyCommand::CreateFile => BrowserAction::PromptCreate,
            KeyCommand::Quit => BrowserAction::Quit,
            KeyCommand::Unknown => BrowserAction::Continue,
        }
    }

    /// Render the listing: one line per entry, in order, the selected entry
    /// prefixed with the marker and every other entry with the neutral
    /// prefix.
    pub fn render_lines(&self) -> (lines: Vec<String>)
        requires
            self.wf(),
        ensures
            lines@.len() == self.names().len(),
            forall|j: int|
                0 <= j < lines@.len() ==> lines@[j]@ == rendered_line(self.names()[j], j == self.sel()),
    {
        let mut lines: Vec<String> = Vec::new();
        let mut i: usize = 0;
        while i < self.entries.len()
            invariant
                self.wf(),
                i <= self.entries@.len(),
                lines@.len() == i,
                forall|j: int|
                    0 <= j < i ==> lines@[j]@ == rendered_line(self.names()[j], j == self.sel()),
            decreases self.entries@.len() - i,
        {
            let prefix = if i == self.selected {
                "> "
            } else {
                "  "
            };
            let line = String::from_str(prefix).concat(self.entries[i].as_str());
            lines.push(line);
            i = i + 1;
        }
        lines
    }
}

/// Over any sequence of commands, the selection index of a well-formed
/// browser state stays in range: never negative, never at or past the
/// listing's length.
pub proof fn lemma_nav_stays_in_range(len: nat, sel: int, cmds: Seq<KeyCommand>)
    requires
        in_range(len, sel),
    ensures
        in_range(len, nav_index_all(len, sel, cmds)),
    decreases cmds.len(),
{
    if cmds.len() > 0 {
        lemma_nav_stays_in_range(len, nav_index(len, sel, cmds[0]), cmds.drop_first());
    }
}

/// Moving down saturates at the last entry and moving up saturates at the
/// top: from the last index, down changes nothing; from index zero, up
/// changes nothing.
pub proof fn lemma_nav_saturates(len: nat)
    requires
        len > 0,
    ensures
        nav_index(len, len - 1, KeyCommand::MoveDown) == len - 1,
        nav_index(len, 0, KeyCommand::MoveUp) == 0,
{
}

/// After a refresh whose fresh listing holds a newly created name exactly
/// once — the listing is adopted wholesale, as `refresh` ensures — the
/// browser holds that name exactly once, and its selection index is back in
/// range for the new length.
pub proof fn lemma_create_refresh(pre: Browser, post: Browser, new_names: Seq<Seq<char>>, created: Seq<char>)
    requires
        pre.wf(),
        post.names() == new_names,
        post.sel() == clamp_index(new_names.len(), pre.sel()),
        count_name(new_names, created) == 1,
    ensures
        count_name(post.names(), created) == 1,
        post.wf(),
{
}

} // verus!
