use vstd::prelude::*;
use crate::event::Event;
use crate::scrollbar::ScrollbarPosition;
use crate::text::{lines_of, push_char, text_lines};

verus! {

/// The greeting that a fresh view starts with.
pub open spec fn greeting() -> Seq<char> {
    "Hello, World!\n"@
}

/// What the state of the view is, mathematically.
pub struct StateModel {
    pub text: Seq<char>,
    pub line_count: nat,
    pub scroll_position: nat,
    pub bar_length: nat,
    pub bar_position: nat,
}

/// The state that the render loop owns: the text, its line count, how many
/// lines are scrolled past, and the scrollbar's display state.
pub struct AppState {
    pub text: String,
    pub line_count: usize,
    pub scroll_position: usize,
    pub scroll_state: ScrollbarPosition,
}

/// What one frame shows: the lines from the scroll position on, and the
/// scrollbar.
pub struct FrameContent {
    pub lines: Vec<String>,
    pub scrollbar: ScrollbarPosition,
}

/// The state after one event other than `Exit` (which leaves it alone).
pub open spec fn apply_event(m: StateModel, e: Event) -> StateModel {
    match e {
        Event::Key(c) => StateModel { text: m.text.push(c), ..m },
        Event::LineBreak => StateModel {
            text: m.text.push('\n'),
            line_count: m.line_count + 1,
            ..m
        },
        Event::ScrollDown => StateModel {
            scroll_position: if m.scroll_position < m.line_count {
                m.scroll_position + 1
            } else {
                m.line_count
            },
            ..m
        },
        Event::ScrollUp => StateModel {
            scroll_position: if m.scroll_position == 0 { 0 } else { (m.scroll_position - 1) as nat },
            ..m
        },
        Event::Exit => m,
    }
}

/// The scroll position never passes the line count.
pub open spec fn scroll_in_bounds(m: StateModel) -> bool {
    m.scroll_position <= m.line_count
}

/// An event can be applied without the line count overflowing.
pub open spec fn can_apply(m: StateModel, e: Event) -> bool {
    e is LineBreak ==> m.line_count < usize::MAX
}

/// The lines that a frame shows: those of the text from the scroll position on.
pub open spec fn visible_lines(m: StateModel) -> Seq<Seq<char>> {
    let all = lines_of(m.text);
    if m.scroll_position <= all.len() {
        all.subrange(m.scroll_position as int, all.len() as int)
    } else {
        Seq::empty()
    }
}

impl AppState {
    pub open spec fn view(&self) -> StateModel {
        StateModel {
            text: self.text@,
            line_count: self.line_count as nat,
            scroll_position: self.scroll_position as nat,
            bar_length: self.scroll_state.content_length as nat,
            bar_position: self.scroll_state.position as nat,
        }
    }

    pub open spec fn wf(&self) -> bool {
        scroll_in_bounds(self.view())
    }

    /// A fresh view: the greeting as its one line, scrolled to the top, and an
    /// empty scrollbar.
    pub fn new() -> (r: AppState)
        ensures
            r.view().text == greeting(),
            r.view().line_count == 1,
            r.view().scroll_position == 0,
            r.view().bar_length == 0,
            r.view().bar_position == 0,
            r.wf(),
    {
        let mut text = String::new();
        text.append("Hello, World!\n");
        assert(text@ =~= greeting());
        AppState {
            text,
            line_count: 1,
            scroll_position: 0,
            scroll_state: ScrollbarPosition::new(),
        }
    }

    /// Applies one event. `Exit` changes nothing here: stopping is the loop's
    /// business.
    pub fn apply(&mut self, e: Event)
        requires
            can_apply(old(self).view(), e),
        ensures
            final(self).view() == apply_event(old(self).view(), e),
            old(self).wf() ==> final(self).wf(),
    {
        match e {
            Event::Key(c) => {
                push_char(&mut self.text, c);
            },
            Event::LineBreak => {
                push_char(&mut self.text, '\n');
                self.line_count = self.line_count + 1;
            },
            Event::ScrollDown => {
                let up: usize = if self.scroll_position == usize::MAX {
                    usize::MAX
                } else {
                    self.scroll_position + 1
                };
                self.scroll_position = if up < self.line_count { up } else { self.line_count };
            },
            Event::ScrollUp => {
                self.scroll_position = if self.scroll_position == 0 {
                    0
                } else {
                    self.scroll_position - 1
                };
            },
            Event::Exit => {},
        }
    }

    /// Derives the scrollbar from the line count and the scroll position, and
    /// returns what the frame shows.
    pub fn frame(&mut self) -> (r: FrameContent)
        ensures
            final(self).view() == (StateModel {
                bar_length: old(self).line_count as nat,
                bar_position: old(self).scroll_position as nat,
                ..old(self).view()
            }),
            r.scrollbar == final(self).scroll_state,
            r.scrollbar.content_length == old(self).line_count,
            r.scrollbar.position == old(self).scroll_position,
            r.lines@.len() == visible_lines(old(self).view()).len(),
            forall|i: int| 0 <= i < r.lines@.len() ==> #[trigger] r.lines@[i]@ == visible_lines(
                old(self).view(),
            )[i],
    {
        self.scroll_state = ScrollbarPosition {
            content_length: self.line_count,
            position: self.scroll_position,
        };
        let all = text_lines(self.text.as_str());
        let mut lines: Vec<String> = Vec::new();
        let mut i: usize = self.scroll_position;
        while i < all.len()
            invariant
                self.view() == (StateModel {
                    bar_length: old(self).line_count as nat,
                    bar_position: old(self).scroll_position as nat,
                    ..old(self).view()
                }),
                all@.len() == lines_of(self.text@).len(),
                forall|k: int| 0 <= k < all@.len() ==> #[trigger] all@[k]@ == lines_of(self.text@)[k],
                i >= self.scroll_position,
                self.scroll_position <= all@.len() ==> i <= all@.len(),
                all@.len() < self.scroll_position ==> i == self.scroll_position,
                lines@.len() == i - self.scroll_position,
                forall|k: int|
                    0 <= k < lines@.len() ==> #[trigger] lines@[k]@ == lines_of(
                        self.text@,
                    )[self.scroll_position + k],
            decreases all.len() - i,
        {
            lines.push(all[i].clone());
            i = i + 1;
        }
        assert(visible_lines(old(self).view()).len() == lines@.len());
        FrameContent { lines, scrollbar: self.scroll_state }
    }
}

} // verus!
