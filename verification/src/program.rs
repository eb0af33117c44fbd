//! # Program
//!
//! The state of the browser: the list of images, the image that is shown,
//! the destination folder and the shift keys. Every operation changes the
//! state and says what the event loop has to do next; the event loop loads
//! and draws images, creates the folder and moves files.

use crate::cli::Args;
use crate::geometry::{make_dst, fit_region, positive_sizes, Rectangle};
use crate::paths::{base_name, file_name, join, joined, texts};
use crate::ui::{event_action, Action, Event, State};
use vstd::prelude::*;
use vstd::string::StringExecFns;

verus! {

/// Program holds the state of the browser.
pub struct Program {
    images: Vec<String>,
    dest_folder: String,
    index: usize,
    ui_state: State,
}

/// The state of the browser as a mathematical value.
pub struct Browser {
    /// The paths of the images, in the order in which they are shown.
    pub images: Seq<Seq<char>>,
    /// The path of the folder that images are moved to.
    pub dest_folder: Seq<char>,
    /// The position in `images` of the image that is shown. It has no
    /// meaning while there are no images.
    pub index: int,
    /// The shift keys.
    pub ui_state: State,
}

/// What the event loop has to do after an operation of the program.
pub enum Effect {
    /// Leave the event loop.
    Quit,
    /// Nothing.
    Idle,
    /// Load the image at this path and draw it.
    Render(String),
    /// Make sure that the folder at this path exists, then call
    /// `move_image` with the outcome.
    EnsureFolder(String),
}

/// An `Effect` as a mathematical value.
pub enum EffectView {
    Quit,
    Idle,
    Render(Seq<char>),
    EnsureFolder(Seq<char>),
}

impl View for Effect {
    type V = EffectView;

    open spec fn view(&self) -> EffectView {
        match *self {
            Effect::Quit => EffectView::Quit,
            Effect::Idle => EffectView::Idle,
            Effect::Render(path) => EffectView::Render(path@),
            Effect::EnsureFolder(path) => EffectView::EnsureFolder(path@),
        }
    }
}

/// How the attempt to create the destination folder ended.
pub enum FolderOutcome {
    /// The folder was created, or was there and nothing was reported.
    Created,
    /// The attempt reported that the folder exists already.
    AlreadyExists,
    /// The attempt failed otherwise, with this message.
    Failed(String),
}

/// A file to move: from the path `from` to the path `to`.
pub struct Transfer {
    pub from: String,
    pub to: String,
}

/// Why an image was not moved.
pub enum MoveError {
    /// The destination folder could not be created; the message says why.
    Folder(String),
    /// The path of the image has no file name.
    NoFileName,
    /// The file could not be moved; the message says why.
    Transfer(String),
}

impl MoveError {
    /// The message that describes the error.
    pub fn message(&self) -> (text: String)
        ensures
            match *self {
                MoveError::Folder(m) => text@ == m@,
                MoveError::NoFileName => text@ == "failed to read filename for current image"@,
                MoveError::Transfer(m) => text@ == m@,
            },
    {
        match self {
            MoveError::Folder(m) => m.clone(),
            MoveError::NoFileName => String::from_str("failed to read filename for current image"),
            MoveError::Transfer(m) => m.clone(),
        }
    }
}

/// The size of an image or of the viewport, in pixels.
#[derive(Clone, Copy, Debug, PartialEq, Eq, Structural)]
pub struct Size {
    pub width: u32,
    pub height: u32,
}

/// One call of the renderer.
#[derive(Clone, Copy, Debug, PartialEq, Eq, Structural)]
pub enum DrawStep {
    /// Clear the canvas.
    Clear,
    /// Draw the whole image into this rectangle of the canvas.
    Copy(Rectangle),
    /// Present the canvas on the screen.
    Present,
}

impl Browser {
    /// While there are images, the index is the position of one of them.
    pub open spec fn wf(self) -> bool {
        &&& 0 <= self.index
        &&& self.images.len() > 0 ==> self.index < self.images.len()
    }

    pub open spec fn is_empty(self) -> bool {
        self.images.len() == 0
    }

    /// The path of the image that is shown.
    pub open spec fn current(self) -> Seq<char>
        recommends
            !self.is_empty(),
            self.wf(),
    {
        self.images[self.index]
    }

    /// The browser with another index.
    pub open spec fn at(self, index: int) -> Browser {
        Browser { index, ..self }
    }

    /// Goes forward by `step` images where that many images follow, and
    /// stays otherwise.
    pub open spec fn next(self, step: int) -> Browser {
        if !self.is_empty() && self.index + step <= self.images.len() - 1 {
            self.at(self.index + step)
        } else {
            self
        }
    }

    /// Goes back by `step` images, and to the first image where fewer than
    /// `step` images precede. Without images nothing changes.
    pub open spec fn prev(self, step: int) -> Browser {
        if self.is_empty() {
            self
        } else if self.index >= step {
            self.at(self.index - step)
        } else {
            self.at(0)
        }
    }

    /// Goes to the first image.
    pub open spec fn first(self) -> Browser {
        self.at(0)
    }

    /// Goes to the last image; without images the index is 0.
    pub open spec fn last(self) -> Browser {
        if self.is_empty() {
            self.at(0)
        } else {
            self.at(self.images.len() - 1)
        }
    }

    /// The browser after the image that is shown has left the list: the
    /// image that followed it is shown, or, where none followed, the one
    /// that preceded it. Where no image is left, the index stays.
    pub open spec fn without_current(self) -> Browser
        recommends
            !self.is_empty(),
            self.wf(),
    {
        let images = self.images.remove(self.index);
        let index = if self.index >= images.len() && images.len() > 0 {
            self.index - 1
        } else {
            self.index
        };
        Browser { images, index, ..self }
    }

    /// The browser after `action`, as far as the action moves the index.
    /// `Move` is not among these: it takes effect in `move_image`.
    pub open spec fn navigate(self, action: Action) -> Browser {
        match action {
            Action::Next(step) => self.next(step as int),
            Action::Prev(step) => self.prev(step as int),
            Action::First => self.first(),
            Action::Last => self.last(),
            _ => self,
        }
    }

    /// The browser after each of `actions` in turn.
    pub open spec fn navigate_all(self, actions: Seq<Action>) -> Browser
        decreases actions.len(),
    {
        if actions.len() == 0 {
            self
        } else {
            self.navigate_all(actions.drop_last()).navigate(actions.last())
        }
    }

    /// What drawing the browser asks for: the image that is shown, and
    /// nothing without images.
    pub open spec fn render(self) -> EffectView {
        if self.is_empty() {
            EffectView::Idle
        } else {
            EffectView::Render(self.current())
        }
    }

    /// What the event loop has to do after `action`.
    pub open spec fn effect(self, action: Action) -> EffectView {
        match action {
            Action::Quit => EffectView::Quit,
            Action::Noop => EffectView::Idle,
            Action::Move => if self.is_empty() {
                EffectView::Idle
            } else {
                EffectView::EnsureFolder(self.dest_folder)
            },
            _ => self.navigate(action).render(),
        }
    }

    /// The browser after an input event: the shift keys follow the event,
    /// and the index follows the action that the event stands for.
    pub open spec fn handle(self, event: Event) -> Browser {
        Browser { ui_state: self.ui_state.after(event), ..self }.navigate(
            self.ui_state.action(event),
        )
    }
}

/// `action` is one of `Next`, `Prev`, `First` and `Last`.
pub open spec fn is_navigation(action: Action) -> bool {
    action is Next || action is Prev || action is First || action is Last
}

/// No action moves the index out of the list, and none changes the list.
pub proof fn lemma_navigate_keeps_wf(browser: Browser, action: Action)
    requires
        browser.wf(),
    ensures
        browser.navigate(action).wf(),
        browser.navigate(action).images == browser.images,
        browser.navigate(action).dest_folder == browser.dest_folder,
{
}

/// After any sequence of `Next`, `Prev`, `First` and `Last` on a list that
/// is not empty, the list is as it was and the index is the position of one
/// of its images.
pub proof fn lemma_navigation_stays_in_range(browser: Browser, actions: Seq<Action>)
    requires
        browser.wf(),
        !browser.is_empty(),
        forall|i: int| 0 <= i < actions.len() ==> is_navigation(#[trigger] actions[i]),
    ensures
        browser.navigate_all(actions).images == browser.images,
        0 <= browser.navigate_all(actions).index < browser.images.len(),
    decreases actions.len(),
{
    if actions.len() > 0 {
        let earlier = actions.drop_last();
        assert forall|i: int| 0 <= i < earlier.len() implies is_navigation(#[trigger] earlier[i]) by {
            assert(earlier[i] == actions[i]);
        }
        lemma_navigation_stays_in_range(browser, earlier);
        lemma_navigate_keeps_wf(browser.navigate_all(earlier), actions.last());
    }
}

/// Where fewer than `step` images follow the one that is shown, `Next`
/// changes nothing.
pub proof fn lemma_next_past_end_stays(browser: Browser, step: int)
    requires
        browser.wf(),
        browser.index + step > browser.images.len() - 1,
    ensures
        browser.next(step) == browser,
{
}

/// Where fewer than `step` images precede the one that is shown, `Prev`
/// shows the first image.
pub proof fn lemma_prev_past_start_is_first(browser: Browser, step: int)
    requires
        browser.wf(),
        !browser.is_empty(),
        browser.index < step,
    ensures
        browser.prev(step) == browser.at(0),
{
}

/// Taking the shown image out of the list makes the list shorter by one,
/// keeps the other images in their order, never moves the index forward,
/// and leaves the index in the list while images are left. Taking out the
/// last of `n` images leaves the index at `n - 2`, and at 0 for `n = 1`.
pub proof fn lemma_without_current(browser: Browser)
    requires
        browser.wf(),
        !browser.is_empty(),
    ensures
        browser.without_current().wf(),
        browser.without_current().images.len() == browser.images.len() - 1,
        browser.without_current().images == browser.images.remove(browser.index),
        browser.without_current().index <= browser.index,
        browser.index < browser.images.len() - 1 ==> browser.without_current().index
            == browser.index && browser.without_current().current() == browser.images[browser.index
            + 1],
        browser.index == browser.images.len() - 1 && browser.images.len() >= 2
            ==> browser.without_current().index == browser.images.len() - 2,
        browser.images.len() == 1 ==> browser.without_current().is_empty()
            && browser.without_current().index == browser.index,
{
}

impl View for Program {
    type V = Browser;

    closed spec fn view(&self) -> Browser {
        Browser {
            images: texts(self.images@),
            dest_folder: self.dest_folder@,
            index: self.index as int,
            ui_state: self.ui_state,
        }
    }
}

impl Program {
    /// Makes the program from its arguments: the first image is shown and
    /// no shift key is held.
    pub fn init(args: Args) -> (program: Program)
        ensures
            program@.wf(),
            program@ == (Browser {
                images: texts(args.files@),
                dest_folder: args.dest_folder@,
                index: 0,
                ui_state: State { left_shift: false, right_shift: false },
            }),
    {
        Program {
            images: args.files,
            dest_folder: args.dest_folder,
            index: 0,
            ui_state: State::new(),
        }
    }

    /// The paths of the images.
    pub fn images(&self) -> (images: &Vec<String>)
        ensures
            texts(images@) == self@.images,
    {
        &self.images
    }

    /// The number of images.
    pub fn len(&self) -> (len: usize)
        ensures
            len == self@.images.len(),
    {
        self.images.len()
    }

    /// Whether there are no images.
    pub fn is_empty(&self) -> (empty: bool)
        ensures
            empty == self@.is_empty(),
    {
        self.images.len() == 0
    }

    /// The position of the image that is shown.
    pub fn index(&self) -> (index: usize)
        ensures
            index == self@.index,
    {
        self.index
    }

    /// The path of the image that is shown, if there is one.
    pub fn current(&self) -> (path: Option<&String>)
        requires
            self@.wf(),
        ensures
            match path {
                Some(p) => !self@.is_empty() && p@ == self@.current(),
                None => self@.is_empty(),
            },
    {
        if self.images.len() == 0 {
            None
        } else {
            Some(&self.images[self.index])
        }
    }

    /// The path of the folder that images are moved to.
    pub fn dest_folder(&self) -> (folder: &String)
        ensures
            folder@ == self@.dest_folder,
    {
        &self.dest_folder
    }

    /// The shift keys.
    pub fn ui_state(&self) -> (state: State)
        ensures
            state == self@.ui_state,
    {
        self.ui_state
    }

    /// Asks for the image that is shown to be drawn. Without images there
    /// is nothing to draw.
    pub fn render(&self) -> (effect: Effect)
        requires
            self@.wf(),
        ensures
            effect@ == self@.render(),
    {
        if self.images.len() == 0 {
            Effect::Idle
        } else {
            Effect::Render(self.images[self.index].clone())
        }
    }

    /// Goes forward by `step` images if that many images follow the one
    /// that is shown, and stays otherwise; then asks for a drawing.
    pub fn increment(&mut self, step: usize) -> (effect: Effect)
        requires
            old(self)@.wf(),
        ensures
            final(self)@.wf(),
            final(self)@ == old(self)@.next(step as int),
            effect@ == final(self)@.render(),
            old(self)@.is_empty() ==> final(self)@ == old(self)@ && effect@ == EffectView::Idle,
            old(self)@.index + step > old(self)@.images.len() - 1 ==> final(self)@.index == old(self)@.index,
            !old(self)@.is_empty() && old(self)@.index + step <= old(self)@.images.len() - 1
                ==> final(self)@.index == old(self)@.index + step,
    {
        if self.images.len() == 0 {
            return Effect::Idle;
        }
        let last: usize = self.images.len() - 1;
        if step <= last - self.index {
            self.index = self.index + step;
        }
        self.render()
    }

    /// Goes back by `step` images, or to the first image if fewer than
    /// `step` images precede the one that is shown; then asks for a drawing.
    pub fn decrement(&mut self, step: usize) -> (effect: Effect)
        requires
            old(self)@.wf(),
        ensures
            final(self)@.wf(),
            final(self)@ == old(self)@.prev(step as int),
            effect@ == final(self)@.render(),
            old(self)@.is_empty() ==> final(self)@ == old(self)@ && effect@ == EffectView::Idle,
            !old(self)@.is_empty() && old(self)@.index < step ==> final(self)@.index == 0,
            !old(self)@.is_empty() && old(self)@.index >= step ==> final(self)@.index == old(self)@.index - step,
    {
        if self.images.len() == 0 {
            return Effect::Idle;
        }
        if self.index >= step {
            self.index = self.index - step;
        } else {
            self.index = 0;
        }
        self.render()
    }

    /// Goes to the first image, then asks for a drawing.
    pub fn first(&mut self) -> (effect: Effect)
        requires
            old(self)@.wf(),
        ensures
            final(self)@.wf(),
            final(self)@ == old(self)@.first(),
            final(self)@.index == 0,
            effect@ == final(self)@.render(),
    {
        self.index = 0;
        self.render()
    }

    /// Goes to the last image, then asks for a drawing. Without images the
    /// index becomes 0.
    pub fn last(&mut self) -> (effect: Effect)
        requires
            old(self)@.wf(),
        ensures
            final(self)@.wf(),
            final(self)@ == old(self)@.last(),
            !old(self)@.is_empty() ==> final(self)@.index == old(self)@.images.len() - 1,
            old(self)@.is_empty() ==> final(self)@.index == 0,
            effect@ == final(self)@.render(),
    {
        if self.images.len() == 0 {
            self.index = 0;
        } else {
            self.index = self.images.len() - 1;
        }
        self.render()
    }

    /// Takes the image that is shown out of the list, to be moved into the
    /// destination folder under the file name `name`.
    ///
    /// `folder` says how creating the destination folder ended, and `name`
    /// is the file name of the image that is shown, if its path has one.
    /// Without images nothing happens. Where the folder could not be
    /// created, or the path has no file name, the move fails and the list
    /// stays as it was. Otherwise the image leaves the list, and the result
    /// says which file is to be moved where.
    pub fn move_as(&mut self, folder: FolderOutcome, name: Option<String>) -> (result: Result<
        Option<Transfer>,
        MoveError,
    >)
        requires
            old(self)@.wf(),
        ensures
            final(self)@.wf(),
            old(self)@.is_empty() ==> (result matches Ok(None)) && final(self)@ == old(self)@,
            !old(self)@.is_empty() ==> match (folder, name) {
                (FolderOutcome::Failed(why), _) => {
                    &&& result matches Err(MoveError::Folder(m)) && m@ == why@
                    &&& final(self)@ == old(self)@
                },
                (_, None) => {
                    &&& result matches Err(MoveError::NoFileName)
                    &&& final(self)@ == old(self)@
                },
                (_, Some(n)) => {
                    &&& result matches Ok(Some(t)) && t.from@ == old(self)@.current() && t.to@
                        == joined(old(self)@.dest_folder, n@)
                    &&& final(self)@ == old(self)@.without_current()
                },
            },
            result is Ok && !old(self)@.is_empty() ==> final(self)@.images.len() == old(self)@.images.len() - 1,
            final(self)@.images.len() <= old(self)@.images.len(),
            final(self)@.index <= old(self)@.index,
            result is Ok && old(self)@.images.len() >= 2 && old(self)@.index == old(self)@.images.len() - 1 ==> final(self)@.index == old(self)@.images.len() - 2,
            result is Ok && old(self)@.images.len() == 1 ==> final(self)@.is_empty() && final(self)@.index == old(self)@.index,
    {
        if self.images.len() == 0 {
            return Ok(None);
        }
        if let FolderOutcome::Failed(why) = folder {
            return Err(MoveError::Folder(why));
        }
        let name: String = match name {
            Some(name) => name,
            None => {
                return Err(MoveError::NoFileName);
            },
        };
        let to: String = join(self.dest_folder.as_str(), name.as_str());
        let from: String = self.images.remove(self.index);
        if self.index >= self.images.len() && self.images.len() > 0 {
            self.index = self.index - 1;
        }
        proof {
            assert(texts(self.images@) =~= texts(old(self).images@).remove(old(self).index as int));
        }
        Ok(Some(Transfer { from, to }))
    }

    /// Moves the image that is shown: takes it out of the list and says
    /// which file is to be moved where.
    ///
    /// `folder` says how creating the destination folder ended. The file
    /// keeps its name and goes into the destination folder. Without images
    /// nothing happens. Where the folder could not be created, or the path
    /// of the image has no file name, the move fails and the list stays as
    /// it was.
    pub fn move_image(&mut self, folder: FolderOutcome) -> (result: Result<Option<Transfer>, MoveError>)
        requires
            old(self)@.wf(),
        ensures
            final(self)@.wf(),
            old(self)@.is_empty() ==> (result matches Ok(None)) && final(self)@ == old(self)@,
            !old(self)@.is_empty() ==> match (folder, base_name(old(self)@.current())) {
                (FolderOutcome::Failed(why), _) => {
                    &&& result matches Err(MoveError::Folder(m)) && m@ == why@
                    &&& final(self)@ == old(self)@
                },
                (_, None) => {
                    &&& result matches Err(MoveError::NoFileName)
                    &&& final(self)@ == old(self)@
                },
                (_, Some(n)) => {
                    &&& result matches Ok(Some(t)) && t.from@ == old(self)@.current() && t.to@
                        == joined(old(self)@.dest_folder, n)
                    &&& final(self)@ == old(self)@.without_current()
                },
            },
            result is Ok && !old(self)@.is_empty() ==> final(self)@.images.len() == old(self)@.images.len() - 1,
            final(self)@.images.len() <= old(self)@.images.len(),
            final(self)@.index <= old(self)@.index,
            result is Ok && old(self)@.images.len() >= 2 && old(self)@.index == old(self)@.images.len() - 1 ==> final(self)@.index == old(self)@.images.len() - 2,
            result is Ok && old(self)@.images.len() == 1 ==> final(self)@.is_empty() && final(self)@.index == old(self)@.index,
    {
        if self.images.len() == 0 {
            return Ok(None);
        }
        let name: Option<String> = file_name(self.images[self.index].as_str());
        self.move_as(folder, name)
    }

    /// Ends a move: where the file was moved, asks for a drawing of the
    /// image that is shown now; where it was not, reports why.
    pub fn finish_move(&self, moved: Result<(), String>) -> (result: Result<Effect, MoveError>)
        requires
            self@.wf(),
        ensures
            match moved {
                Ok(_) => result matches Ok(effect) && effect@ == self@.render(),
                Err(why) => result matches Err(MoveError::Transfer(m)) && m@ == why@,
            },
    {
        match moved {
            Ok(_) => Ok(self.render()),
            Err(why) => Err(MoveError::Transfer(why)),
        }
    }

    /// Handles one input event: updates the shift keys, carries out the
    /// action that the event stands for, and says what the event loop has
    /// to do next. The event loop calls this for each event in the order
    /// in which the events arrive, and leaves on `Effect::Quit`.
    pub fn run(&mut self, event: &Event) -> (effect: Effect)
        requires
            old(self)@.wf(),
        ensures
            final(self)@.wf(),
            final(self)@ == old(self)@.handle(*event),
            effect@ == old(self)@.effect(old(self)@.ui_state.action(*event)),
            final(self)@.images == old(self)@.images,
            final(self)@.dest_folder == old(self)@.dest_folder,
    {
        let action: Action = event_action(&mut self.ui_state, event);
        match action {
            Action::Quit => Effect::Quit,
            Action::ReRender => self.render(),
            Action::Next(step) => self.increment(step),
            Action::Prev(step) => self.decrement(step),
            Action::Move => {
                if self.images.len() == 0 {
                    Effect::Idle
                } else {
                    Effect::EnsureFolder(self.dest_folder.clone())
                }
            },
            Action::First => self.first(),
            Action::Last => self.last(),
            Action::Noop => Effect::Idle,
        }
    }
}

/// The calls of the renderer that draw an image: none where the image
/// could not be loaded; else clearing the canvas, drawing the image into
/// the rectangle that fits it to the viewport, and presenting the canvas,
/// in this order.
pub open spec fn draw_plan(image: Option<Size>, viewport: Size) -> Seq<DrawStep> {
    match image {
        None => Seq::empty(),
        Some(size) => seq![
            DrawStep::Clear,
            DrawStep::Copy(
                rectangle_of(
                    fit_region(
                        size.width as int,
                        size.height as int,
                        viewport.width as int,
                        viewport.height as int,
                    ),
                ),
            ),
            DrawStep::Present,
        ],
    }
}

/// The rectangle that stands for a region.
pub open spec fn rectangle_of(region: crate::geometry::Region) -> Rectangle {
    Rectangle {
        x: region.x as i32,
        y: region.y as i32,
        width: region.width as u32,
        height: region.height as u32,
    }
}

/// Says which calls of the renderer draw an image of size `image` in a
/// viewport of size `viewport`; `image` is `None` where the image could
/// not be loaded.
pub fn draw_steps(image: Option<Size>, viewport: Size) -> (steps: Vec<DrawStep>)
    requires
        image matches Some(size) ==> positive_sizes(
            size.width as int,
            size.height as int,
            viewport.width as int,
            viewport.height as int,
        ),
    ensures
        steps@ == draw_plan(image, viewport),
        image is None ==> steps@.len() == 0,
        image matches Some(size) ==> {
            &&& steps@.len() == 3
            &&& steps@[0] == DrawStep::Clear
            &&& steps@[1] matches DrawStep::Copy(r) && r@ == fit_region(
                size.width as int,
                size.height as int,
                viewport.width as int,
                viewport.height as int,
            ) && r@.inside(viewport.width as int, viewport.height as int)
            &&& steps@[2] == DrawStep::Present
        },
{
    let mut steps: Vec<DrawStep> = Vec::new();
    match image {
        None => {},
        Some(size) => {
            let dest: Rectangle = make_dst(size.width, size.height, viewport.width, viewport.height);
            steps.push(DrawStep::Clear);
            steps.push(DrawStep::Copy(dest));
            steps.push(DrawStep::Present);
            proof {
                assert(dest == rectangle_of(dest@));
                assert(steps@ =~= draw_plan(image, viewport));
            }
        },
    }
    steps
}

} // verus!
