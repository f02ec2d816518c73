use vstd::prelude::*;

use crate::movie_player::ImageData;
use crate::movie_player::MoviePlayer;
use crate::movie_player::ImageView;
use crate::movie_player::PlayingState;
use crate::pixel::PixelFormat;

verus! {

/// BlankMode picks the image shown while the movie is not actively playing,
/// or when no live frame is available.
#[allow(non_camel_case_types)]
#[derive(Debug, Copy, Clone, PartialEq, Eq, Structural)]
pub enum BlankMode {
    Black,
    White,
    Transparent,
    /// use last frame on pause, otherwise transparent
    LastFrameOnPause_TransparentOnStop,
    /// use last frame on pause, use first frame on stop
    LastFrameOnPause_FirstFrameOnStop,
    /// use last frame on pause and stop
    LastFrameOnPauseAndStop,
}

impl Default for BlankMode {
    fn default() -> (r: Self)
        ensures
            r == BlankMode::LastFrameOnPause_FirstFrameOnStop,
    {
        BlankMode::LastFrameOnPause_FirstFrameOnStop
    }
}

/// The single black BGRA pixel: blue, green, red zero, alpha opaque.
pub open spec fn spec_black_frame_bgra_1x1() -> Seq<u8> {
    seq![0u8, 0u8, 0u8, 255u8]
}

/// The single white BGRA pixel.
pub open spec fn spec_white_frame_bgra_1x1() -> Seq<u8> {
    seq![255u8, 255u8, 255u8, 255u8]
}

/// The single fully transparent BGRA pixel.
pub open spec fn spec_transparent_frame_bgra_1x1() -> Seq<u8> {
    seq![0u8, 0u8, 0u8, 0u8]
}

/// The single black RGB pixel.
pub open spec fn spec_black_frame_rgb_1x1() -> Seq<u8> {
    seq![0u8, 0u8, 0u8]
}

/// The single white RGB pixel.
pub open spec fn spec_white_frame_rgb_1x1() -> Seq<u8> {
    seq![255u8, 255u8, 255u8]
}

/// RGB has no alpha channel, so "transparent" degrades to black.
pub open spec fn spec_transparent_frame_rgb_1x1() -> Seq<u8> {
    seq![0u8, 0u8, 0u8]
}

/// A 1-by-1 BGRA image holding the given pixel bytes.
pub open spec fn spec_texture_1x1_bgra(data: Seq<u8>) -> ImageView {
    ImageView { data: data, format: PixelFormat::Bgra8UnormSrgb, resolution: (1u32, 1u32) }
}

/// A 1-by-1 RGB image holding the given pixel bytes.
pub open spec fn spec_texture_1x1_rgb(data: Seq<u8>) -> ImageView {
    ImageView { data: data, format: PixelFormat::Rgb8Unorm, resolution: (1u32, 1u32) }
}

/// The view of an optional frame.
pub open spec fn opt_image_view(frame: Option<ImageData>) -> Option<ImageView> {
    match frame {
        Some(f) => Some(f@),
        None => None,
    }
}

/// The blanking policy, BGRA flavor: which image stands in when the movie is
/// not actively playing, given the mode, the transport state, and the frame
/// the caller chose to supply (the last one shown for a pause, the first or
/// last one for a stop). The fixed modes ignore both; the frame-reusing
/// modes fall back to the transparent pixel when no frame was supplied or
/// the state does not call for one.
pub open spec fn spec_blank_frame_bgra(
    blank_mode: BlankMode,
    state: PlayingState,
    frame: Option<ImageView>,
) -> ImageView {
    match blank_mode {
        BlankMode::Black => spec_texture_1x1_bgra(spec_black_frame_bgra_1x1()),
        BlankMode::White => spec_texture_1x1_bgra(spec_white_frame_bgra_1x1()),
        BlankMode::Transparent => spec_texture_1x1_bgra(spec_transparent_frame_bgra_1x1()),
        BlankMode::LastFrameOnPause_TransparentOnStop => if state is Paused && frame is Some {
            frame->0
        } else {
            spec_texture_1x1_bgra(spec_transparent_frame_bgra_1x1())
        },
        BlankMode::LastFrameOnPause_FirstFrameOnStop => if (state is Paused || state is Stopped)
            && frame is Some {
            frame->0
        } else {
            spec_texture_1x1_bgra(spec_transparent_frame_bgra_1x1())
        },
        BlankMode::LastFrameOnPauseAndStop => if frame is Some {
            frame->0
        } else {
            spec_texture_1x1_bgra(spec_transparent_frame_bgra_1x1())
        },
    }
}

/// The blanking policy, RGB flavor: as the BGRA one, with 3-byte pixels.
pub open spec fn spec_blank_frame_rgb(
    blank_mode: BlankMode,
    state: PlayingState,
    frame: Option<ImageView>,
) -> ImageView {
    match blank_mode {
        BlankMode::Black => spec_texture_1x1_rgb(spec_black_frame_rgb_1x1()),
        BlankMode::White => spec_texture_1x1_rgb(spec_white_frame_rgb_1x1()),
        BlankMode::Transparent => spec_texture_1x1_rgb(spec_transparent_frame_rgb_1x1()),
        BlankMode::LastFrameOnPause_TransparentOnStop => if state is Paused && frame is Some {
            frame->0
        } else {
            spec_texture_1x1_rgb(spec_transparent_frame_rgb_1x1())
        },
        BlankMode::LastFrameOnPause_FirstFrameOnStop => if (state is Paused || state is Stopped)
            && frame is Some {
            frame->0
        } else {
            spec_texture_1x1_rgb(spec_transparent_frame_rgb_1x1())
        },
        BlankMode::LastFrameOnPauseAndStop => if frame is Some {
            frame->0
        } else {
            spec_texture_1x1_rgb(spec_transparent_frame_rgb_1x1())
        },
    }
}

pub fn black_frame_bgra_1x1() -> (r: Vec<u8>)
    ensures
        r@ == spec_black_frame_bgra_1x1(),
{
    let mut v: Vec<u8> = Vec::new();
    v.push(0);
    v.push(0);
    v.push(0);
    v.push(255);
    proof {
        assert(v@ =~= spec_black_frame_bgra_1x1());
    }
    v
}

pub fn white_frame_bgra_1x1() -> (r: Vec<u8>)
    ensures
        r@ == spec_white_frame_bgra_1x1(),
{
    let mut v: Vec<u8> = Vec::new();
    v.push(255);
    v.push(255);
    v.push(255);
    v.push(255);
    proof {
        assert(v@ =~= spec_white_frame_bgra_1x1());
    }
    v
}

pub fn transparent_frame_bgra_1x1() -> (r: Vec<u8>)
    ensures
        r@ == spec_transparent_frame_bgra_1x1(),
{
    let mut v: Vec<u8> = Vec::new();
    v.push(0);
    v.push(0);
    v.push(0);
    v.push(0);
    proof {
        assert(v@ =~= spec_transparent_frame_bgra_1x1());
    }
    v
}

pub fn black_frame_rgb_1x1() -> (r: Vec<u8>)
    ensures
        r@ == spec_black_frame_rgb_1x1(),
{
    let mut v: Vec<u8> = Vec::new();
    v.push(0);
    v.push(0);
    v.push(0);
    proof {
        assert(v@ =~= spec_black_frame_rgb_1x1());
    }
    v
}

pub fn white_frame_rgb_1x1() -> (r: Vec<u8>)
    ensures
        r@ == spec_white_frame_rgb_1x1(),
{
    let mut v: Vec<u8> = Vec::new();
    v.push(255);
    v.push(255);
    v.push(255);
    proof {
        assert(v@ =~= spec_white_frame_rgb_1x1());
    }
    v
}

pub fn transparent_frame_rgb_1x1() -> (r: Vec<u8>)
    ensures
        r@ == spec_transparent_frame_rgb_1x1(),
{
    let mut v: Vec<u8> = Vec::new();
    v.push(0);
    v.push(0);
    v.push(0);
    proof {
        assert(v@ =~= spec_transparent_frame_rgb_1x1());
    }
    v
}

/// A 1-by-1 BGRA image around the given pixel bytes.
pub fn texture_1x1_bgra(data: Vec<u8>) -> (r: ImageData)
    ensures
        r@ == spec_texture_1x1_bgra(data@),
{
    ImageData { data, format: PixelFormat::Bgra8UnormSrgb, resolution: (1, 1) }
}

/// A 1-by-1 RGB image around the given pixel bytes.
pub fn texture_1x1_rgb(data: Vec<u8>) -> (r: ImageData)
    ensures
        r@ == spec_texture_1x1_rgb(data@),
{
    ImageData { data, format: PixelFormat::Rgb8Unorm, resolution: (1, 1) }
}

/// Apply the BGRA blanking policy.
pub fn get_blank_frame_bgra(
    blank_mode: BlankMode,
    state: PlayingState,
    last_or_first_frame: Option<ImageData>,
) -> (r: ImageData)
    ensures
        r@ == spec_blank_frame_bgra(blank_mode, state, opt_image_view(last_or_first_frame)),
{
    match blank_mode {
        BlankMode::Black => texture_1x1_bgra(black_frame_bgra_1x1()),
        BlankMode::White => texture_1x1_bgra(white_frame_bgra_1x1()),
        BlankMode::Transparent => texture_1x1_bgra(transparent_frame_bgra_1x1()),
        BlankMode::LastFrameOnPause_TransparentOnStop => {
            if state == PlayingState::Paused {
                if let Some(last_frame) = last_or_first_frame {
                    last_frame
                } else {
                    texture_1x1_bgra(transparent_frame_bgra_1x1())
                }
            } else {
                texture_1x1_bgra(transparent_frame_bgra_1x1())
            }
        },
        BlankMode::LastFrameOnPause_FirstFrameOnStop => {
            if state == PlayingState::Paused {
                if let Some(last_frame) = last_or_first_frame {
                    last_frame
                } else {
                    texture_1x1_bgra(transparent_frame_bgra_1x1())
                }
            } else if state == PlayingState::Stopped {
                if let Some(first_frame) = last_or_first_frame {
                    first_frame
                } else {
                    texture_1x1_bgra(transparent_frame_bgra_1x1())
                }
            } else {
                texture_1x1_bgra(transparent_frame_bgra_1x1())
            }
        },
        BlankMode::LastFrameOnPauseAndStop => {
            if let Some(frame) = last_or_first_frame {
                frame
            } else {
                texture_1x1_bgra(transparent_frame_bgra_1x1())
            }
        },
    }
}

/// Apply the RGB blanking policy.
pub fn get_blank_frame_rgb(
    blank_mode: BlankMode,
    state: PlayingState,
    last_or_first_frame: Option<ImageData>,
) -> (r: ImageData)
    ensures
        r@ == spec_blank_frame_rgb(blank_mode, state, opt_image_view(last_or_first_frame)),
{
    match blank_mode {
        BlankMode::Black => texture_1x1_rgb(black_frame_rgb_1x1()),
        BlankMode::White => texture_1x1_rgb(white_frame_rgb_1x1()),
        BlankMode::Transparent => texture_1x1_rgb(transparent_frame_rgb_1x1()),
        BlankMode::LastFrameOnPause_TransparentOnStop => {
            if state == PlayingState::Paused {
                if let Some(last_frame) = last_or_first_frame {
                    last_frame
                } else {
                    texture_1x1_rgb(transparent_frame_rgb_1x1())
                }
            } else {
                texture_1x1_rgb(transparent_frame_rgb_1x1())
            }
        },
        BlankMode::LastFrameOnPause_FirstFrameOnStop => {
            if state == PlayingState::Paused {
                if let Some(last_frame) = last_or_first_frame {
                    last_frame
                } else {
                    texture_1x1_rgb(transparent_frame_rgb_1x1())
                }
            } else if state == PlayingState::Stopped {
                if let Some(first_frame) = last_or_first_frame {
                    first_frame
                } else {
                    texture_1x1_rgb(transparent_frame_rgb_1x1())
                }
            } else {
                texture_1x1_rgb(transparent_frame_rgb_1x1())
            }
        },
        BlankMode::LastFrameOnPauseAndStop => {
            if let Some(frame) = last_or_first_frame {
                frame
            } else {
                texture_1x1_rgb(transparent_frame_rgb_1x1())
            }
        },
    }
}

/// Implemented by backends that decode frames to raw BGRA bytes. Positions
/// are in microseconds. Nothing is assumed of the returned bytes: a backend
/// may fail to produce a frame (`None`) at any time, and the player
/// degrades to the blanking policy.
pub trait BGRAImageFrameProvider {
    fn get_first_frame_bgra(&mut self) -> Option<Vec<u8>>;

    fn get_paused_frame_bgra(&mut self, position: u64) -> Option<Vec<u8>>;

    fn get_playing_frame_bgra(&mut self, position: u64) -> Option<Vec<u8>>;

    fn get_last_frame_bgra(&mut self) -> Option<Vec<u8>>;
}

/// Implemented by backends that decode frames to raw RGB bytes. Positions
/// are in microseconds; nothing is assumed of the returned bytes.
pub trait RGBImageFrameProvider {
    fn get_first_frame_rgb(&mut self) -> Option<Vec<u8>>;

    fn get_paused_frame_rgb(&mut self, position: u64) -> Option<Vec<u8>>;

    fn get_playing_frame_rgb(&mut self, position: u64) -> Option<Vec<u8>>;

    fn get_last_frame_rgb(&mut self) -> Option<Vec<u8>>;
}

/// Implemented by backends whose frames stay in a GPU-native compressed
/// format; `get_texture_format` reports which one. Positions are in
/// microseconds; nothing is assumed of the returned bytes.
pub trait CompressedImageFrameProvider {
    fn get_first_frame_compressed(&mut self) -> Option<Vec<u8>>;

    fn get_paused_frame_compressed(&mut self, position: u64) -> Option<Vec<u8>>;

    fn get_playing_frame_compressed(&mut self, position: u64) -> Option<Vec<u8>>;

    fn get_last_frame_compressed(&mut self) -> Option<Vec<u8>>;

    fn get_texture_format(&self) -> PixelFormat;
}

/// The image a player presents, as a function of its state, its blanking
/// mode, and whatever frame the backend handed back (`fetched`). While
/// playing, a fetched frame is shown as-is and a missing one degrades to the
/// blanking policy with no frame; while paused or stopped the fetched frame
/// is offered to the blanking policy.
pub open spec fn spec_image_or_blank(
    state: PlayingState,
    blank_mode: BlankMode,
    fetched: Option<Seq<u8>>,
    format: PixelFormat,
    resolution: (u32, u32),
) -> ImageView {
    match state {
        PlayingState::Playing => match fetched {
            Some(bytes) => ImageView { data: bytes, format: format, resolution: resolution },
            None => spec_blank_frame_bgra(blank_mode, state, None),
        },
        _ => spec_blank_frame_bgra(
            blank_mode,
            state,
            match fetched {
                Some(bytes) => Some(
                    ImageView { data: bytes, format: format, resolution: resolution },
                ),
                None => None,
            },
        ),
    }
}

impl<T: BGRAImageFrameProvider> MoviePlayer<T> {
    /// The frame to present this tick, as raw BGRA bytes: while playing, the
    /// frame at the current position; while paused, the frame that was
    /// playing; while stopped, whichever frame the blanking mode calls for.
    /// Whatever the backend returns, the result is that frame or the blank
    /// the policy picks — a missing frame never escalates into an error.
    pub fn get_image_data(&mut self) -> (r: ImageData)
        requires
            old(self).wf(),
        ensures
            final(self).wf(),
            final(self).state_controller == old(self).state_controller,
            final(self).blank_mode == old(self).blank_mode,
            final(self).duration == old(self).duration,
            final(self).resolution == old(self).resolution,
            exists|fetched: Option<Seq<u8>>|
                r@ == spec_image_or_blank(
                    old(self).state_controller.state,
                    old(self).blank_mode,
                    fetched,
                    PixelFormat::Bgra8UnormSrgb,
                    old(self).resolution,
                ),
    {
        let state = self.state_controller.get_state();
        match state {
            PlayingState::Stopped => {
                let frame_or_not: Option<Vec<u8>> = if self.blank_mode
                    == BlankMode::LastFrameOnPause_FirstFrameOnStop {
                    self.frame_provider.get_first_frame_bgra()
                } else if self.blank_mode == BlankMode::LastFrameOnPauseAndStop {
                    self.frame_provider.get_last_frame_bgra()
                } else {
                    None
                };
                let ghost fetched: Option<Seq<u8>> = match frame_or_not {
                    Some(ref v) => Some(v@),
                    None => None,
                };
                let frame_data: Option<ImageData> = match frame_or_not {
                    Some(frame) => Some(
                        ImageData {
                            data: frame,
                            format: PixelFormat::Bgra8UnormSrgb,
                            resolution: self.resolution,
                        },
                    ),
                    None => None,
                };
                let r = get_blank_frame_bgra(self.blank_mode, state, frame_data);
                proof {
                    assert(r@ == spec_image_or_blank(
                        state,
                        self.blank_mode,
                        fetched,
                        PixelFormat::Bgra8UnormSrgb,
                        self.resolution,
                    ));
                }
                r
            },
            PlayingState::Paused => {
                let position = self.state_controller.get_position(
                    self.state_controller.elapsed_time,
                );
                let last_frame = self.frame_provider.get_paused_frame_bgra(position);
                let ghost fetched: Option<Seq<u8>> = match last_frame {
                    Some(ref v) => Some(v@),
                    None => None,
                };
                let last_frame_data: Option<ImageData> = match last_frame {
                    Some(frame) => Some(
                        ImageData {
                            data: frame,
                            format: PixelFormat::Bgra8UnormSrgb,
                            resolution: self.resolution,
                        },
                    ),
                    None => None,
                };
                let r = get_blank_frame_bgra(self.blank_mode, state, last_frame_data);
                proof {
                    assert(r@ == spec_image_or_blank(
                        state,
                        self.blank_mode,
                        fetched,
                        PixelFormat::Bgra8UnormSrgb,
                        self.resolution,
                    ));
                }
                r
            },
            PlayingState::Playing => {
                let position = self.state_controller.get_position(
                    self.state_controller.elapsed_time,
                );
                let frame = self.frame_provider.get_playing_frame_bgra(position);
                let ghost fetched: Option<Seq<u8>> = match frame {
                    Some(ref v) => Some(v@),
                    None => None,
                };
                let r = match frame {
                    Some(f) => ImageData {
                        data: f,
                        format: PixelFormat::Bgra8UnormSrgb,
                        resolution: self.resolution,
                    },
                    None => get_blank_frame_bgra(self.blank_mode, state, None),
                };
                proof {
                    assert(r@ == spec_image_or_blank(
                        state,
                        self.blank_mode,
                        fetched,
                        PixelFormat::Bgra8UnormSrgb,
                        self.resolution,
                    ));
                }
                r
            },
        }
    }
}

impl<T: CompressedImageFrameProvider> MoviePlayer<T> {
    /// As `get_image_data`, but the frame bytes stay in the backend's
    /// GPU-native compressed format and carry the format tag the backend
    /// reports. The blanking fallbacks are the uncompressed BGRA pixels.
    pub fn get_compressed_image_data(&mut self) -> (r: ImageData)
        requires
            old(self).wf(),
        ensures
            final(self).wf(),
            final(self).state_controller == old(self).state_controller,
            final(self).blank_mode == old(self).blank_mode,
            final(self).duration == old(self).duration,
            final(self).resolution == old(self).resolution,
            exists|fetched: Option<Seq<u8>>, format: PixelFormat|
                r@ == spec_image_or_blank(
                    old(self).state_controller.state,
                    old(self).blank_mode,
                    fetched,
                    format,
                    old(self).resolution,
                ),
    {
        let state = self.state_controller.get_state();
        let format = self.frame_provider.get_texture_format();
        match state {
            PlayingState::Stopped => {
                let frame_or_not: Option<Vec<u8>> = if self.blank_mode
                    == BlankMode::LastFrameOnPause_FirstFrameOnStop {
                    self.frame_provider.get_first_frame_compressed()
                } else if self.blank_mode == BlankMode::LastFrameOnPauseAndStop {
                    self.frame_provider.get_last_frame_compressed()
                } else {
                    None
                };
                let ghost fetched: Option<Seq<u8>> = match frame_or_not {
                    Some(ref v) => Some(v@),
                    None => None,
                };
                let frame_data: Option<ImageData> = match frame_or_not {
                    Some(frame) => Some(
                        ImageData { data: frame, format: format, resolution: self.resolution },
                    ),
                    None => None,
                };
                let r = get_blank_frame_bgra(self.blank_mode, state, frame_data);
                proof {
                    assert(r@ == spec_image_or_blank(
                        state,
                        self.blank_mode,
                        fetched,
                        format,
                        self.resolution,
                    ));
                }
                r
            },
            PlayingState::Paused => {
                let position = self.state_controller.get_position(
                    self.state_controller.elapsed_time,
                );
                let last_frame = self.frame_provider.get_paused_frame_compressed(position);
                let ghost fetched: Option<Seq<u8>> = match last_frame {
                    Some(ref v) => Some(v@),
                    None => None,
                };
                let last_frame_data: Option<ImageData> = match last_frame {
                    Some(frame) => Some(
                        ImageData { data: frame, format: format, resolution: self.resolution },
                    ),
                    None => None,
                };
                let r = get_blank_frame_bgra(self.blank_mode, state, last_frame_data);
                proof {
                    assert(r@ == spec_image_or_blank(
                        state,
                        self.blank_mode,
                        fetched,
                        format,
                        self.resolution,
                    ));
                }
                r
            },
            PlayingState::Playing => {
                let position = self.state_controller.get_position(
                    self.state_controller.elapsed_time,
                );
                let frame = self.frame_provider.get_playing_frame_compressed(position);
                let ghost fetched: Option<Seq<u8>> = match frame {
                    Some(ref v) => Some(v@),
                    None => None,
                };
                let r = match frame {
                    Some(f) => ImageData { data: f, format: format, resolution: self.resolution },
                    None => get_blank_frame_bgra(self.blank_mode, state, None),
                };
                proof {
                    assert(r@ == spec_image_or_blank(
                        state,
                        self.blank_mode,
                        fetched,
                        format,
                        self.resolution,
                    ));
                }
                r
            },
        }
    }
}

} // verus!
