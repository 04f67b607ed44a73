use crate::brightness::{adjusted, change_brightness};
use crate::downsample::{downsample, downsampled};
use crate::histogram::{bar_chart, histogram, tally};
use crate::input::{direction, sign};
use crate::pixel::{Image, PixelBuffer};
use vstd::prelude::*;

verus! {

/// The stride at which the source image is sampled for the preview.
pub const SKIP_FACTOR: usize = 10;

/// The lowest brightness that the slider offers.
pub const MIN_BRIGHTNESS: i32 = -255;

/// The highest brightness that the slider offers.
pub const MAX_BRIGHTNESS: i32 = 255;

/// `value` limited to the bounds of the slider.
pub open spec fn clamp_brightness(value: int) -> int {
    if value < MIN_BRIGHTNESS {
        MIN_BRIGHTNESS as int
    } else if value > MAX_BRIGHTNESS {
        MAX_BRIGHTNESS as int
    } else {
        value
    }
}

/// The preview of `source` at a brightness: downsampled, then adjusted.
pub open spec fn preview_of(source: Image, brightness: int) -> Image {
    adjusted(downsampled(source, SKIP_FACTOR as nat), brightness)
}

/// The chart of the luminance histogram of the preview.
pub open spec fn histogram_of(source: Image, brightness: int) -> Image {
    bar_chart(tally(preview_of(source, brightness).pixels))
}

/// The two pictures that the editor hands to the display.
#[derive(Clone, Copy, Debug, PartialEq, Eq, Structural)]
pub enum Picture {
    Preview,
    Histogram,
}

/// The key under which the display keeps a picture.
pub open spec fn key_of(picture: Picture) -> Seq<char> {
    match picture {
        Picture::Preview => "preview"@,
        Picture::Histogram => "histogram"@,
    }
}

/// The key under which the display keeps `picture`. It is the same on every
/// call, and the two pictures have different keys.
pub fn texture_key(picture: Picture) -> (key: &'static str)
    ensures
        key@ == key_of(picture),
{
    match picture {
        Picture::Preview => "preview",
        Picture::Histogram => "histogram",
    }
}

/// Different pictures have different keys, so the display cannot take one
/// for the other.
pub proof fn lemma_keys_distinct(a: Picture, b: Picture)
    requires
        a != b,
    ensures
        key_of(a) != key_of(b),
{
    reveal_strlit("preview");
    reveal_strlit("histogram");
    assert("preview"@.len() == 7);
    assert("histogram"@.len() == 9);
}

/// What the decoder answers when it is asked for the source image.
#[derive(Debug, PartialEq, Eq)]
pub enum ImagePoll {
    /// The image is still loading: ask again in the next cycle.
    Pending,
    /// The image is there.
    Ready(PixelBuffer),
    /// Loading failed, with a message for the user.
    Failed(String),
}

/// The preview and the chart of its histogram, made in one cycle.
#[derive(Debug, PartialEq, Eq)]
pub struct Preview {
    pub image: PixelBuffer,
    pub histogram: PixelBuffer,
}

/// What a cycle leaves for the display to show.
#[derive(Debug, PartialEq, Eq)]
pub enum Refresh {
    /// There is nothing to show: no image is loaded, or its preview has no
    /// pixel.
    Nothing,
    /// The pictures that were handed out last are still the right ones.
    Unchanged,
    /// New pictures, which replace any that were handed out before.
    Fresh(Preview),
}

/// What happened outside since the last cycle.
#[derive(Debug, PartialEq, Eq)]
pub struct CycleInput {
    /// The decoder's answer, where it was asked.
    pub poll: Option<ImagePoll>,
    /// The value that the slider holds.
    pub slider: i32,
    /// Whether the pointer is over the slider.
    pub hovered: bool,
    /// The vertical scroll delta, as the bits of an IEEE 754 single.
    pub scroll: u32,
}

/// What the outside has to do after a cycle.
#[derive(Debug, PartialEq, Eq)]
pub struct CycleOutput {
    /// A message to show to the user.
    pub message: Option<String>,
    /// The pictures to show.
    pub refresh: Refresh,
}

/// The state of the editor as contracts speak of it.
#[verifier::ext_equal]
pub struct EditorState {
    /// The brightness level.
    pub brightness: int,
    /// The source image, once it is loaded.
    pub source: Option<Image>,
    /// The brightness of the pictures that were handed out last for this
    /// source image, if any were.
    pub shown: Option<int>,
}

impl EditorState {
    /// The state before anything happened.
    pub open spec fn initial() -> EditorState {
        EditorState { brightness: 0, source: None, shown: None }
    }

    /// There is a source image and its preview has a pixel.
    pub open spec fn visible(self) -> bool {
        self.source matches Some(source) && !downsampled(source, SKIP_FACTOR as nat).is_empty()
    }

    /// The state after the decoder's answer. An image that is ready becomes
    /// the source image; no pictures were handed out for it yet.
    pub open spec fn polled(self, poll: ImagePoll) -> EditorState {
        match poll {
            ImagePoll::Ready(image) => EditorState {
                brightness: self.brightness,
                source: Some(image@),
                shown: None,
            },
            _ => self,
        }
    }

    /// The state after the slider was read.
    pub open spec fn slid(self, value: int) -> EditorState {
        EditorState { brightness: clamp_brightness(value), ..self }
    }

    /// The state after a scroll gesture. The gesture counts only while the
    /// pointer is over the slider; it moves the brightness by one step, within
    /// the bounds of the slider.
    pub open spec fn scrolled(self, hovered: bool, bits: u32) -> EditorState {
        if hovered {
            EditorState { brightness: clamp_brightness(self.brightness + direction(bits)), ..self }
        } else {
            self
        }
    }

    /// The pictures that were handed out last are those of the present
    /// brightness.
    pub open spec fn up_to_date(self) -> bool {
        self.shown == Some(self.brightness)
    }

    /// The state after the pictures were brought up to date.
    pub open spec fn refreshed(self) -> EditorState {
        if self.visible() {
            EditorState { shown: Some(self.brightness), ..self }
        } else {
            self
        }
    }

    /// Whether `refresh` is what the display is owed in this state.
    pub open spec fn owes(self, refresh: Refresh) -> bool {
        match refresh {
            Refresh::Nothing => !self.visible(),
            Refresh::Unchanged => self.visible() && self.up_to_date(),
            Refresh::Fresh(preview) => {
                &&& self.visible()
                &&& !self.up_to_date()
                &&& preview.image@ == preview_of(self.source->0, self.brightness)
                &&& preview.histogram@ == histogram_of(self.source->0, self.brightness)
            },
        }
    }
}

/// The message that a decoder's answer carries for the user.
pub open spec fn message_of(poll: ImagePoll) -> Option<String> {
    match poll {
        ImagePoll::Failed(message) => Some(message),
        _ => None,
    }
}

/// The editor: the brightness level, the source image once it is loaded, and
/// a note of which pictures the display holds. The brightness always lies
/// within the bounds of the slider.
pub struct PhotoEditor {
    brightness: i32,
    image: Option<PixelBuffer>,
    shown: Option<i32>,
}

impl View for PhotoEditor {
    type V = EditorState;

    closed spec fn view(&self) -> EditorState {
        EditorState {
            brightness: self.brightness as int,
            source: match self.image {
                Some(image) => Some(image@),
                None => None,
            },
            shown: match self.shown {
                Some(brightness) => Some(brightness as int),
                None => None,
            },
        }
    }
}

impl PhotoEditor {
    #[verifier::type_invariant]
    spec fn inv(self) -> bool {
        &&& MIN_BRIGHTNESS <= self.brightness <= MAX_BRIGHTNESS
        &&& self.shown is Some ==> self@.visible()
    }

    /// An editor at brightness zero that has no image yet.
    pub fn new() -> (editor: PhotoEditor)
        ensures
            editor@ == EditorState::initial(),
    {
        PhotoEditor { brightness: 0, image: None, shown: None }
    }

    /// The brightness level.
    pub fn brightness(&self) -> (level: i32)
        ensures
            level == self@.brightness,
            MIN_BRIGHTNESS <= level <= MAX_BRIGHTNESS,
    {
        proof {
            use_type_invariant(self);
        }
        self.brightness
    }

    /// Whether the decoder has to be asked for the source image.
    pub fn wants_image(&self) -> (wanted: bool)
        ensures
            wanted == (self@.source is None),
    {
        self.image.is_none()
    }

    /// Takes the decoder's answer. An image that is ready becomes the source
    /// image. A failure changes nothing and gives back its message for the
    /// user; so the decoder is asked again in the next cycle.
    pub fn poll(&mut self, poll: ImagePoll) -> (message: Option<String>)
        ensures
            final(self)@ == old(self)@.polled(poll),
            message == message_of(poll),
    {
        proof {
            use_type_invariant(&*self);
        }
        match poll {
            ImagePoll::Pending => None,
            ImagePoll::Ready(image) => {
                self.shown = None;
                self.image = Some(image);
                None
            },
            ImagePoll::Failed(message) => Some(message),
        }
    }

    /// Takes the value of the slider, limited to its bounds.
    pub fn set_brightness(&mut self, value: i32)
        ensures
            final(self)@ == old(self)@.slid(value as int),
    {
        proof {
            use_type_invariant(&*self);
        }
        let level: i32 = if value < MIN_BRIGHTNESS {
            MIN_BRIGHTNESS
        } else if value > MAX_BRIGHTNESS {
            MAX_BRIGHTNESS
        } else {
            value
        };
        self.brightness = level;
    }

    /// Takes a scroll gesture, given by the bits of its delta. While the
    /// pointer is over the slider the brightness moves one step in the
    /// direction of the gesture, but not beyond the bounds of the slider;
    /// otherwise nothing changes.
    pub fn scroll(&mut self, hovered: bool, bits: u32)
        ensures
            final(self)@ == old(self)@.scrolled(hovered, bits),
    {
        proof {
            use_type_invariant(&*self);
        }
        if hovered {
            let level: i32 = self.brightness + sign(bits);
            self.set_brightness(level);
        }
    }

    /// Brings the pictures up to date. Without a source image, or where its
    /// preview has no pixel, there is nothing to show. Where the pictures
    /// handed out last were made at the present brightness they are still
    /// right. Otherwise the source image is downsampled, the brightness is
    /// applied and the histogram is drawn.
    pub fn refresh(&mut self) -> (refresh: Refresh)
        ensures
            old(self)@.owes(refresh),
            final(self)@ == old(self)@.refreshed(),
    {
        proof {
            use_type_invariant(&*self);
        }
        match &self.image {
            None => Refresh::Nothing,
            Some(source) => {
                if self.shown == Some(self.brightness) {
                    Refresh::Unchanged
                } else {
                    let small = downsample(source, SKIP_FACTOR);
                    if small.is_empty() {
                        Refresh::Nothing
                    } else {
                        let image = change_brightness(&small, self.brightness);
                        let histogram = histogram(&image);
                        self.shown = Some(self.brightness);
                        Refresh::Fresh(Preview { image, histogram })
                    }
                }
            },
        }
    }

    /// One refresh cycle: the decoder's answer is taken, then the slider's
    /// value, then the scroll gesture, and last the pictures are brought up
    /// to date.
    pub fn update(&mut self, input: CycleInput) -> (output: CycleOutput)
        ensures
            final(self)@ == cycle_state(old(self)@, input).refreshed(),
            cycle_state(old(self)@, input).owes(output.refresh),
            output.message == match input.poll {
                Some(poll) => message_of(poll),
                None => None,
            },
    {
        let message = match input.poll {
            Some(poll) => self.poll(poll),
            None => None,
        };
        self.set_brightness(input.slider);
        self.scroll(input.hovered, input.scroll);
        let refresh = self.refresh();
        CycleOutput { message, refresh }
    }
}

/// The state in which the pictures of a cycle are made: after the decoder's
/// answer, the slider and the scroll gesture, in this order.
pub open spec fn cycle_state(state: EditorState, input: CycleInput) -> EditorState {
    let loaded = match input.poll {
        Some(poll) => state.polled(poll),
        None => state,
    };
    loaded.slid(input.slider as int).scrolled(input.hovered, input.scroll)
}

} // verus!
