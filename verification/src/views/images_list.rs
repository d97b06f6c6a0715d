//! The list of images.

use crate::app::AppCommand;
use crate::docker::{DockerRequest, DockerResponse, Image};
use crate::event::Key;
use crate::text::{byte_range, can_cut, cut, is_cut, starts_with};
use crate::ui::{first_visible_row, rows_view, table_fits, table_offset, Row, Style};
use crate::views::{
    clamp_cursor, cursor_clamped, cursor_in_range, cursor_target, duration_text, human_seconds,
    move_cursor, refresh_outcome, ViewAction,
};
use vstd::prelude::*;

verus! {

/// The list of images, with a cursor on one of them.
#[derive(Debug, Clone, PartialEq, Eq)]
pub struct ImagesListView {
    /// List of images to display
    pub images: Vec<Image>,
    /// Index of the currently selected image from the above list
    pub selected: usize,
}

/// What the daemon puts in front of the digest in the id of an image.
pub const DIGEST_PREFIX: &'static str = "sha256:";

/// What stands in the place of the tag of an image that has none.
pub const NO_TAG: &'static str = "<none>";

/// How a number of bytes is written out for a reader, such as `1.5 MB`;
/// with `si_prefix`, in units of 1024 bytes.
pub uninterp spec fn bytesize_text(bytes: u64, si_prefix: bool) -> Seq<char>;

/// Calls `bytesize::to_string`, which words a number of bytes with one
/// decimal place and the unit that suits it. The text is a function of the
/// two arguments alone.
#[verifier::external_body]
fn bytesize_to_string(bytes: u64, si_prefix: bool) -> (text: String)
    ensures
        text@ == bytesize_text(bytes, si_prefix),
{
    bytesize::to_string(bytes, si_prefix)
}

/// The short form of an id: of an id that starts with [`DIGEST_PREFIX`],
/// the first ten bytes of the digest; any other id as it is.
pub open spec fn short_id(id: Seq<char>) -> Seq<char> {
    if DIGEST_PREFIX@.is_prefix_of(id) {
        byte_range(id, 7, 17)
    } else {
        id
    }
}

/// Whether an id has a short form: behind [`DIGEST_PREFIX`] there have to
/// be ten bytes to cut out.
pub open spec fn can_shorten(id: Seq<char>) -> bool {
    DIGEST_PREFIX@.is_prefix_of(id) ==> can_cut(id, 7, 17)
}

/// The tag that an image is listed under: the first of its tags, or
/// [`NO_TAG`].
pub open spec fn first_tag(image: Image) -> Seq<char> {
    match image.repo_tags {
        Some(tags) => if tags@.len() > 0 {
            tags@[0]@
        } else {
            NO_TAG@
        },
        None => NO_TAG@,
    }
}

/// Whether the row of an image can be made at time `now`: the image was not
/// created after it, and its id and the id of its parent have short forms.
pub open spec fn can_list(image: Image, now: nat) -> bool {
    image.created <= now && can_shorten(image.id@) && can_shorten(image.parent_id@)
}

/// The cells of an image's row, with `size` for the wording of its size,
/// and how the row is shown: the row under the cursor stands out.
pub open spec fn row_of(image: Image, selected: bool, now: nat, size: Seq<char>) -> (
    Seq<Seq<char>>,
    Style,
) {
    (
        seq![
            short_id(image.id@),
            short_id(image.parent_id@),
            first_tag(image),
            duration_text((now - image.created) as nat) + " ago"@,
            size,
        ],
        if selected {
            Style::Selected
        } else {
            Style::Normal
        },
    )
}

/// The mathematical value of an [`ImagesListView`].
pub ghost struct ImagesListState {
    pub images: Seq<Image>,
    pub selected: nat,
}

impl ImagesListState {
    /// The cursor stands on an image, or at 0 in an empty list.
    pub open spec fn wf(self) -> bool {
        cursor_in_range(self.selected, self.images.len())
    }

    /// The view after `key` was pressed: a movement key moves the cursor.
    pub open spec fn after_key(self, key: Key) -> ImagesListState {
        match cursor_target(key, self.selected, self.images.len()) {
            Some(target) => ImagesListState { selected: target, ..self },
            None => self,
        }
    }

    /// What `key` asks for: nothing further for a movement key, and `None`
    /// for any other key, which the view does not bind.
    pub open spec fn action_for(self, key: Key) -> Option<ViewAction> {
        match cursor_target(key, self.selected, self.images.len()) {
            Some(_) => Some(ViewAction::Command(AppCommand::NoOp)),
            None => None,
        }
    }

    /// Whether the table can be made at time `now`: the row of every image
    /// can.
    pub open spec fn can_draw(self, now: nat) -> bool {
        forall|i: int| 0 <= i < self.images.len() ==> can_list(#[trigger] self.images[i], now)
    }

    /// The rows of the table in a rectangle of `rect_height` lines at time
    /// `now`: one row for each image, from the first that is on the screen.
    pub open spec fn rows(self, rect_height: nat, now: nat) -> Seq<(Seq<Seq<char>>, Style)> {
        let first = first_visible_row(self.selected, rect_height);
        let shown = if first < self.images.len() {
            (self.images.len() - first) as nat
        } else {
            0
        };
        Seq::new(
            shown,
            |i: int|
                row_of(
                    self.images[first + i],
                    first + i == self.selected,
                    now,
                    bytesize_text(self.images[first + i].virtual_size, false),
                ),
        )
    }

    /// The call that a refresh makes: list all images.
    pub open spec fn request(self) -> DockerRequest {
        DockerRequest::Images { all: true }
    }

    /// The view after a refresh that ended in `response`: a list of images
    /// replaces the cached one and the cursor is brought back into it;
    /// anything else leaves the view as it was.
    pub open spec fn refreshed(self, response: DockerResponse) -> ImagesListState {
        match response {
            DockerResponse::Images(images) => ImagesListState {
                images: images@,
                selected: cursor_clamped(self.selected, images@.len()),
            },
            _ => self,
        }
    }
}

impl ImagesListView {
    /// The view as a mathematical value.
    pub open spec fn view(&self) -> ImagesListState {
        ImagesListState { images: self.images@, selected: self.selected as nat }
    }

    /// An empty list, to be filled by a refresh.
    pub fn new() -> (view: ImagesListView)
        ensures
            view@ == (ImagesListState { images: Seq::empty(), selected: 0 }),
    {
        ImagesListView { images: Vec::new(), selected: 0 }
    }

    /// Handles a key press.
    pub fn handle_input(&mut self, key: Key) -> (action: Option<ViewAction>)
        ensures
            final(self)@ == old(self)@.after_key(key),
            action == old(self)@.action_for(key),
    {
        match move_cursor(key, self.selected, self.images.len()) {
            Some(target) => {
                self.selected = target;
                Some(ViewAction::Command(AppCommand::NoOp))
            },
            None => None,
        }
    }

    /// Tests whether an id has a short form.
    pub fn has_short_id(id: &str) -> (possible: bool)
        ensures
            possible == can_shorten(id@),
    {
        !starts_with(id, DIGEST_PREFIX) || is_cut(id, 7, 17)
    }

    /// The short form of an id; see [`short_id`].
    pub fn short_id(id: &str) -> (short: String)
        requires
            can_shorten(id@),
        ensures
            short@ == short_id(id@),
    {
        if starts_with(id, DIGEST_PREFIX) {
            String::from_str(cut(id, 7, 17))
        } else {
            String::from_str(id)
        }
    }

    /// Tests whether the row of an image can be made at time `now`, in
    /// seconds since the Unix epoch.
    pub fn can_make_row(image: &Image, now: u64) -> (possible: bool)
        ensures
            possible == can_list(*image, now as nat),
    {
        image.created <= now && Self::has_short_id(image.id.as_str()) && Self::has_short_id(
            image.parent_id.as_str(),
        )
    }

    /// The row of one image at time `now`, with `size` for the wording of
    /// its size; see [`row_of`].
    pub fn row_with(image: &Image, selected: bool, now: u64, size: String) -> (row: Row)
        requires
            can_list(*image, now as nat),
        ensures
            row@ == row_of(*image, selected, now as nat, size@),
    {
        let tag = match &image.repo_tags {
            Some(tags) => if tags.len() > 0 {
                tags[0].clone()
            } else {
                String::from_str(NO_TAG)
            },
            None => String::from_str(NO_TAG),
        };
        let mut cells: Vec<String> = Vec::new();
        cells.push(Self::short_id(image.id.as_str()));
        cells.push(Self::short_id(image.parent_id.as_str()));
        cells.push(tag);
        cells.push(human_seconds(now - image.created).concat(" ago"));
        cells.push(size);
        let style = if selected {
            Style::Selected
        } else {
            Style::Normal
        };
        let row = Row { cells, style };
        assert(row@.0 =~= row_of(*image, selected, now as nat, size@).0);
        row
    }

    /// The row of one image at time `now`.
    pub fn row(image: &Image, selected: bool, now: u64) -> (row: Row)
        requires
            can_list(*image, now as nat),
        ensures
            row@ == row_of(
                *image,
                selected,
                now as nat,
                bytesize_text(image.virtual_size, false),
            ),
    {
        Self::row_with(image, selected, now, bytesize_to_string(image.virtual_size, false))
    }

    /// Tests whether the table can be made at time `now`, in seconds since
    /// the Unix epoch.
    pub fn can_draw(&self, now: u64) -> (possible: bool)
        ensures
            possible == self@.can_draw(now as nat),
    {
        let mut i: usize = 0;
        while i < self.images.len()
            invariant
                i <= self.images@.len(),
                forall|j: int| 0 <= j < i ==> can_list(#[trigger] self.images@[j], now as nat),
            decreases self.images@.len() - i,
        {
            if !Self::can_make_row(&self.images[i], now) {
                assert(!can_list(self@.images[i as int], now as nat));
                return false;
            }
            i += 1;
        }
        assert forall|j: int| 0 <= j < self@.images.len() implies can_list(
            #[trigger] self@.images[j],
            now as nat,
        ) by {
            assert(can_list(self.images@[j], now as nat));
        }
        true
    }

    /// The rows of the table at time `now`, in seconds since the Unix
    /// epoch, for a rectangle of `rect_height` lines.
    pub fn rows(&self, rect_height: u16, now: u64) -> (rows: Vec<Row>)
        requires
            self@.can_draw(now as nat),
            table_fits(self.selected as nat, rect_height as nat),
        ensures
            rows_view(rows@) == self@.rows(rect_height as nat, now as nat),
    {
        assert(self.images@.len() == self.images.len());
        let first = table_offset(self.selected, rect_height);
        let mut rows: Vec<Row> = Vec::new();
        let mut i: usize = first;
        while i < self.images.len()
            invariant
                first <= i,
                self@.can_draw(now as nat),
                first < self.images@.len() ==> i <= self.images@.len(),
                first < self.images@.len() ==> rows@.len() == i - first,
                first >= self.images@.len() ==> rows@.len() == 0,
                forall|k: int|
                    0 <= k < rows@.len() ==> (#[trigger] rows@[k])@ == row_of(
                        self.images@[first + k],
                        first + k == self.selected,
                        now as nat,
                        bytesize_text(self.images@[first + k].virtual_size, false),
                    ),
            decreases self.images@.len() - i,
        {
            assert(can_list(self@.images[i as int], now as nat));
            rows.push(Self::row(&self.images[i], i == self.selected, now));
            i += 1;
        }
        assert(rows_view(rows@) =~= self@.rows(rect_height as nat, now as nat));
        rows
    }

    /// The call that a refresh makes.
    pub fn refresh_request(&self) -> (request: DockerRequest)
        ensures
            request == self@.request(),
    {
        DockerRequest::Images { all: true }
    }

    /// Takes in the outcome of the call that [`Self::refresh_request`] asked
    /// for.
    pub fn refresh(&mut self, response: DockerResponse) -> (command: AppCommand)
        ensures
            final(self)@ == old(self)@.refreshed(response),
            command == refresh_outcome(response),
    {
        match response {
            DockerResponse::Images(images) => {
                self.selected = clamp_cursor(self.selected, images.len());
                self.images = images;
                AppCommand::NoOp
            },
            DockerResponse::Failed(description) => AppCommand::ErrorMsg(description),
            _ => AppCommand::NoOp,
        }
    }
}

/// After a refresh that brought a list of images, the view holds that list
/// and its cursor stands on one of its images, or at 0 if the list is
/// empty, wherever the cursor stood before.
pub proof fn lemma_refresh_clamps_cursor(state: ImagesListState, images: Vec<Image>)
    ensures
        ({
            let after = state.refreshed(DockerResponse::Images(images));
            &&& after.images == images@
            &&& images@.len() == 0 ==> after.selected == 0
            &&& images@.len() > 0 ==> 0 <= after.selected < images@.len()
            &&& state.selected < images@.len() ==> after.selected == state.selected
            &&& after.wf()
        }),
{
}

/// A cursor that stands in the list stays in it, whatever key is pressed
/// and however a refresh ends.
pub proof fn lemma_cursor_stays_in_list(state: ImagesListState, key: Key, response: DockerResponse)
    requires
        state.wf(),
    ensures
        state.after_key(key).wf(),
        state.refreshed(response).wf(),
{
}

} // verus!
