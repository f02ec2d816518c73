use movie_player::blankable_image_data_provider::BGRAImageFrameProvider;
use movie_player::blankable_image_data_provider::BlankMode;
use movie_player::blankable_image_data_provider::CompressedImageFrameProvider;
use movie_player::movie_player::LoopMode;
use movie_player::movie_player::MoviePlayer;
use movie_player::movie_player::PlayingState;
use movie_player::pixel::PixelFormat;

const SEC: u64 = 1_000_000;

/// A stand-in backend: always decodes the same recognizable bytes, and
/// remembers which position was last asked for.
struct FakeProvider {
    frame: Option<Vec<u8>>,
    last_position: Option<u64>,
}

impl BGRAImageFrameProvider for FakeProvider {
    fn get_first_frame_bgra(&mut self) -> Option<Vec<u8>> {
        self.frame.clone().map(|mut f| {
            f[0] = 0xF1;
            f
        })
    }

    fn get_paused_frame_bgra(&mut self, position: u64) -> Option<Vec<u8>> {
        self.last_position = Some(position);
        self.frame.clone()
    }

    fn get_playing_frame_bgra(&mut self, position: u64) -> Option<Vec<u8>> {
        self.last_position = Some(position);
        self.frame.clone()
    }

    fn get_last_frame_bgra(&mut self) -> Option<Vec<u8>> {
        self.frame.clone().map(|mut f| {
            f[0] = 0xFA;
            f
        })
    }
}

struct FakeCompressedProvider {
    frame: Option<Vec<u8>>,
}

impl CompressedImageFrameProvider for FakeCompressedProvider {
    fn get_first_frame_compressed(&mut self) -> Option<Vec<u8>> {
        self.frame.clone()
    }

    fn get_paused_frame_compressed(&mut self, _position: u64) -> Option<Vec<u8>> {
        self.frame.clone()
    }

    fn get_playing_frame_compressed(&mut self, _position: u64) -> Option<Vec<u8>> {
        self.frame.clone()
    }

    fn get_last_frame_compressed(&mut self) -> Option<Vec<u8>> {
        self.frame.clone()
    }

    fn get_texture_format(&self) -> PixelFormat {
        PixelFormat::Bc7RgbaUnormSrgb
    }
}

fn fake_player(frame: Option<Vec<u8>>) -> MoviePlayer<FakeProvider> {
    MoviePlayer::new(
        FakeProvider {
            frame,
            last_position: None,
        },
        3 * SEC,
        (1024, 1024),
    )
}

#[test]
fn load_play_pause_stop_scenario() {
    // a 3.0 s, 1024 x 1024 media
    let mut player = fake_player(Some(vec![7, 7, 7, 7]));
    assert_eq!(player.get_duration(), 3 * SEC);
    assert_eq!(player.get_resolution(), (1024, 1024));
    player.play();
    player.update(3 * SEC / 2);
    assert_eq!(player.get_position(), 3 * SEC / 2);
    player.pause();
    player.update(5 * SEC);
    assert_eq!(player.get_position(), 3 * SEC / 2);
    player.stop();
    assert_eq!(player.get_position(), 0);
    assert_eq!(player.get_state(), PlayingState::Stopped);
}

#[test]
fn black_blank_while_stopped_ignores_decoder_content() {
    let mut player = fake_player(Some(vec![9, 9, 9, 9, 9, 9, 9, 9]));
    player.set_blank_mode(BlankMode::Black);
    let img = player.get_image_data();
    assert_eq!(img.data, vec![0, 0, 0, 255]);
    assert_eq!(img.resolution, (1, 1));
    assert_eq!(img.format, PixelFormat::Bgra8UnormSrgb);
    // the decoder was never consulted
    assert_eq!(player.frame_provider.last_position, None);
}

#[test]
fn playing_frame_is_passed_through() {
    let mut player = fake_player(Some(vec![1, 2, 3, 4]));
    player.play();
    player.update(SEC);
    let img = player.get_image_data();
    assert_eq!(img.data, vec![1, 2, 3, 4]);
    assert_eq!(img.resolution, (1024, 1024));
    assert_eq!(img.format, PixelFormat::Bgra8UnormSrgb);
    // the backend was asked for the frame at the current position
    assert_eq!(player.frame_provider.last_position, Some(SEC));
}

#[test]
fn missing_frame_while_playing_degrades_to_blank() {
    let mut player = fake_player(None);
    player.set_blank_mode(BlankMode::White);
    player.play();
    player.update(SEC);
    let img = player.get_image_data();
    assert_eq!(img.data, vec![255, 255, 255, 255]);
    assert_eq!(img.resolution, (1, 1));
}

#[test]
fn missing_frame_while_playing_with_frame_mode_degrades_to_transparent() {
    let mut player = fake_player(None);
    player.set_blank_mode(BlankMode::LastFrameOnPauseAndStop);
    player.play();
    player.update(SEC);
    let img = player.get_image_data();
    assert_eq!(img.data, vec![0, 0, 0, 0]);
    assert_eq!(img.resolution, (1, 1));
}

#[test]
fn stopped_with_default_mode_shows_the_first_frame() {
    let mut player = fake_player(Some(vec![5, 6, 7, 8]));
    let img = player.get_image_data();
    // the provider marks first frames with 0xF1
    assert_eq!(img.data, vec![0xF1, 6, 7, 8]);
    assert_eq!(img.resolution, (1024, 1024));
}

#[test]
fn stopped_with_last_frame_mode_shows_the_last_frame() {
    let mut player = fake_player(Some(vec![5, 6, 7, 8]));
    player.set_blank_mode(BlankMode::LastFrameOnPauseAndStop);
    let img = player.get_image_data();
    // the provider marks last frames with 0xFA
    assert_eq!(img.data, vec![0xFA, 6, 7, 8]);
}

#[test]
fn paused_shows_the_frame_at_the_paused_position() {
    let mut player = fake_player(Some(vec![4, 4, 4, 4]));
    player.play();
    player.update(2 * SEC);
    player.pause();
    player.update(3 * SEC);
    let img = player.get_image_data();
    assert_eq!(img.data, vec![4, 4, 4, 4]);
    assert_eq!(player.frame_provider.last_position, Some(2 * SEC));
}

#[test]
fn seek_clamps_and_reports_at_player_level() {
    let mut player = fake_player(None);
    player.play();
    let r = player.seek(10 * SEC);
    assert_eq!(r.unwrap_err().actual_seeked_position, 3 * SEC);
    player.pause();
    assert_eq!(player.get_position(), 3 * SEC);
    let r = player.seek(SEC);
    assert_eq!(r, Ok(SEC));
    assert_eq!(player.get_position(), SEC);
}

#[test]
fn loop_mode_wraps_at_player_level() {
    let mut player = fake_player(None);
    player.set_loop_mode(LoopMode::Loop);
    assert_eq!(player.get_loop_mode(), LoopMode::Loop);
    player.play();
    player.update(3 * SEC);
    assert!(player.is_playing());
    assert_eq!(player.get_position(), 0);
}

#[test]
fn compressed_frames_carry_the_backend_format_tag() {
    let mut player = MoviePlayer::new(
        FakeCompressedProvider {
            frame: Some(vec![0xAB, 0xCD]),
        },
        2 * SEC,
        (640, 480),
    );
    player.play();
    player.update(SEC);
    let img = player.get_compressed_image_data();
    assert_eq!(img.data, vec![0xAB, 0xCD]);
    assert_eq!(img.format, PixelFormat::Bc7RgbaUnormSrgb);
    assert_eq!(img.resolution, (640, 480));
}

#[test]
fn compressed_blank_falls_back_to_bgra_pixels() {
    let mut player = MoviePlayer::new(
        FakeCompressedProvider { frame: None },
        2 * SEC,
        (640, 480),
    );
    player.set_blank_mode(BlankMode::Black);
    let img = player.get_compressed_image_data();
    assert_eq!(img.data, vec![0, 0, 0, 255]);
    assert_eq!(img.format, PixelFormat::Bgra8UnormSrgb);
    assert_eq!(img.resolution, (1, 1));
}
