//! Filesystem selection screen: a list of ext4, Btrfs and XFS.

use vstd::prelude::*;
use super::{Key, StepResult};
use super::list::{list_down, list_up, select_down, select_up};
use super::display::{Body, BodyModel, ScreenModel, ScreenText, items_view, list_row, screen_view};
use crate::config::fs_description;
use crate::config::{FS_TYPE_COUNT, FsType, fs_at};

verus! {

pub struct FilesystemScreen {
    selected: Option<usize>,
}

impl View for FilesystemScreen {
    type V = Option<usize>;

    closed spec fn view(&self) -> Option<usize> {
        self.selected
    }
}

/// The highlight is always on one of the offered filesystems.
pub open spec fn filesystem_wf(sel: Option<usize>) -> bool {
    sel matches Some(i) && i < FS_TYPE_COUNT
}

/// The filesystem a selection stands for; ext4 when nothing valid is highlighted.
pub open spec fn selected_fs(sel: Option<usize>) -> FsType {
    match sel {
        Some(i) => if i < FS_TYPE_COUNT { fs_at(i as int) } else { FsType::Ext4 },
        None => FsType::Ext4,
    }
}

/// One key press on the filesystem screen.
pub open spec fn filesystem_step(sel: Option<usize>, key: Key) -> (Option<usize>, StepResult) {
    match key {
        Key::Up => (list_up(sel), StepResult::Continue),
        Key::Down => (list_down(sel, FS_TYPE_COUNT as nat), StepResult::Continue),
        Key::Enter => (sel, StepResult::Next),
        Key::Esc => (sel, StepResult::Back),
        _ => (sel, StepResult::Continue),
    }
}

/// The filesystem list, in the order of `fs_at`.
pub open spec fn filesystem_screen(sel: Option<usize>) -> ScreenModel {
    ScreenModel {
        title: "Filesystem"@,
        footer: " [Up/Down] Select  [Enter] Confirm  [Esc] Back "@,
        width: 55,
        height: 10,
        body: BodyModel::Choice(Seq::new(3, |i: int| list_row(fs_description(fs_at(i)))), sel),
    }
}

impl FilesystemScreen {
    pub fn text(&self) -> (r: ScreenText)
        ensures
            screen_view(r) == filesystem_screen(self@),
    {
        let mut items: Vec<String> = Vec::new();
        let mut i: usize = 0;
        while i < FS_TYPE_COUNT
            invariant
                i <= FS_TYPE_COUNT,
                items_view(items@) == Seq::new(i as nat, |k: int| list_row(fs_description(fs_at(k)))),
            decreases FS_TYPE_COUNT - i,
        {
            let mut row = "  ".to_owned();
            crate::text::push_str(&mut row, FsType::at(i).description());
            let ghost before = items_view(items@);
            let ghost rv = row@;
            items.push(row);
            assert(items_view(items@) =~= before.push(rv));
            i = i + 1;
            assert(items_view(items@) =~= Seq::new(i as nat, |k: int| list_row(fs_description(fs_at(k)))));
        }
        ScreenText {
            title: "Filesystem",
            footer: " [Up/Down] Select  [Enter] Confirm  [Esc] Back ",
            width: 55,
            height: 10,
            body: Body::Choice { items, selected: self.selected },
        }
    }

    pub closed spec fn wf(&self) -> bool {
        filesystem_wf(self.selected)
    }

    pub fn new() -> (s: Self)
        ensures
            s.wf(),
            s@ == Some(0usize),
    {
        Self { selected: Some(0) }
    }

    /// The highlighted filesystem.
    pub fn selected(&self) -> (r: FsType)
        ensures
            r == selected_fs(self@),
    {
        match self.selected {
            Some(i) => if i < FS_TYPE_COUNT { FsType::at(i) } else { FsType::Ext4 },
            None => FsType::Ext4,
        }
    }

    /// The highlighted row.
    pub fn selected_index(&self) -> (r: Option<usize>)
        ensures
            r == self@,
    {
        self.selected
    }

    pub fn handle_input(&mut self, key: Key) -> (r: StepResult)
        requires
            old(self).wf(),
        ensures
            final(self).wf(),
            (final(self)@, r) == filesystem_step(old(self)@, key),
            key == Key::Up || key == Key::Down ==> r == StepResult::Continue,
            old(self)@ matches Some(i) ==> (key == Key::Up ==> final(self)@ == Some((if i > 0 { i - 1 } else { i as int }) as usize)),
            old(self)@ matches Some(i) ==> (key == Key::Down ==> final(self)@ == Some(
                (if i + 1 < FS_TYPE_COUNT { i + 1 } else { i as int }) as usize)),
    {
        match key {
            Key::Up => {
                self.selected = select_up(self.selected);
                StepResult::Continue
            },
            Key::Down => {
                self.selected = select_down(self.selected, FS_TYPE_COUNT);
                StepResult::Continue
            },
            Key::Enter => StepResult::Next,
            Key::Esc => StepResult::Back,
            _ => StepResult::Continue,
        }
    }
}

} // verus!
