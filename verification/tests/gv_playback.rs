use std::io::Cursor;
use std::time::Duration;

use gv_video::get_bgra_vec_from_frame;
use gv_video::GVFormat;
use gv_video::GVVideo;

use movie_player::blankable_image_data_provider::BGRAImageFrameProvider;
use movie_player::blankable_image_data_provider::BlankMode;
use movie_player::blankable_image_data_provider::CompressedImageFrameProvider;
use movie_player::movie_player::MoviePlayer;
use movie_player::pixel::PixelFormat;

/// A minimal one-frame GV video, 2 by 2 pixels, DXT1, 1 fps: a 24-byte
/// header, one lz4 block holding a solid-white BC1 block, and the
/// (address, size) footer.
fn tiny_gv_bytes() -> Vec<u8> {
    let mut data: Vec<u8> = Vec::new();
    data.extend_from_slice(&2u32.to_le_bytes()); // width
    data.extend_from_slice(&2u32.to_le_bytes()); // height
    data.extend_from_slice(&1u32.to_le_bytes()); // frame count
    data.extend_from_slice(&1.0f32.to_le_bytes()); // fps
    data.extend_from_slice(&1u32.to_le_bytes()); // format: DXT1
    data.extend_from_slice(&16u32.to_le_bytes()); // frame bytes
    // lz4 block: token 0xF0 (15 literals) + extension 0x01 => 16 literals
    let mut block: Vec<u8> = vec![0xF0, 0x01];
    // BC1 block: color0 = 0xFFFF (white) > color1 = 0x0000, all indices 0
    block.extend_from_slice(&[0xFF, 0xFF, 0x00, 0x00, 0x00, 0x00, 0x00, 0x00]);
    // padding up to the 16 decompressed bytes the decoder expects
    block.extend_from_slice(&[0u8; 8]);
    let address = data.len() as u64;
    let size = block.len() as u64;
    data.extend_from_slice(&block);
    data.extend_from_slice(&address.to_le_bytes());
    data.extend_from_slice(&size.to_le_bytes());
    data
}

fn load_tiny_gv() -> GVVideo<Cursor<Vec<u8>>> {
    GVVideo::load(Cursor::new(tiny_gv_bytes()))
}

/// Microsecond duration of a GV video, as the backend reports it.
fn gv_duration_micros(video: &GVVideo<Cursor<Vec<u8>>>) -> u64 {
    (video.get_frame_count() as f64 / video.get_fps() as f64 * 1_000_000.0) as u64
}

struct GvBgraProvider {
    video: GVVideo<Cursor<Vec<u8>>>,
}

impl BGRAImageFrameProvider for GvBgraProvider {
    fn get_first_frame_bgra(&mut self) -> Option<Vec<u8>> {
        self.video.read_frame(0).ok().map(get_bgra_vec_from_frame)
    }

    fn get_paused_frame_bgra(&mut self, position: u64) -> Option<Vec<u8>> {
        self.video
            .read_frame_at(Duration::from_micros(position))
            .ok()
            .map(get_bgra_vec_from_frame)
    }

    fn get_playing_frame_bgra(&mut self, position: u64) -> Option<Vec<u8>> {
        self.video
            .read_frame_at(Duration::from_micros(position))
            .ok()
            .map(get_bgra_vec_from_frame)
    }

    fn get_last_frame_bgra(&mut self) -> Option<Vec<u8>> {
        let n = self.video.get_frame_count();
        if n == 0 {
            None
        } else {
            self.video.read_frame(n - 1).ok().map(get_bgra_vec_from_frame)
        }
    }
}

struct GvCompressedProvider {
    video: GVVideo<Cursor<Vec<u8>>>,
}

impl CompressedImageFrameProvider for GvCompressedProvider {
    fn get_first_frame_compressed(&mut self) -> Option<Vec<u8>> {
        self.video.read_frame_compressed(0).ok()
    }

    fn get_paused_frame_compressed(&mut self, position: u64) -> Option<Vec<u8>> {
        self.video
            .read_frame_compressed_at(Duration::from_micros(position))
            .ok()
    }

    fn get_playing_frame_compressed(&mut self, position: u64) -> Option<Vec<u8>> {
        self.video
            .read_frame_compressed_at(Duration::from_micros(position))
            .ok()
    }

    fn get_last_frame_compressed(&mut self) -> Option<Vec<u8>> {
        let n = self.video.get_frame_count();
        if n == 0 {
            None
        } else {
            self.video.read_frame_compressed(n - 1).ok()
        }
    }

    fn get_texture_format(&self) -> PixelFormat {
        match self.video.get_format() {
            GVFormat::DXT1 => PixelFormat::Bc1RgbaUnormSrgb,
            GVFormat::DXT3 => PixelFormat::Bc2RgbaUnormSrgb,
            GVFormat::DXT5 => PixelFormat::Bc3RgbaUnormSrgb,
            GVFormat::BC7 => PixelFormat::Bc7RgbaUnormSrgb,
        }
    }
}

#[test]
fn gv_reports_header_metadata() {
    let video = load_tiny_gv();
    assert_eq!(video.get_resolution(), (2, 2));
    assert_eq!(video.get_frame_count(), 1);
    assert_eq!(video.get_format(), GVFormat::DXT1);
    assert_eq!(gv_duration_micros(&video), 1_000_000);
}

#[test]
fn gv_playing_frame_decodes_to_white_bgra() {
    let video = load_tiny_gv();
    let duration = gv_duration_micros(&video);
    let resolution = video.get_resolution();
    let mut player = MoviePlayer::new(GvBgraProvider { video }, duration, resolution);
    player.play();
    player.update(0);
    let img = player.get_image_data();
    assert_eq!(img.data, vec![255u8; 16]);
    assert_eq!(img.resolution, (2, 2));
    assert_eq!(img.format, PixelFormat::Bgra8UnormSrgb);
}

#[test]
fn gv_stopped_shows_first_frame_under_default_mode() {
    let video = load_tiny_gv();
    let duration = gv_duration_micros(&video);
    let resolution = video.get_resolution();
    let mut player = MoviePlayer::new(GvBgraProvider { video }, duration, resolution);
    let img = player.get_image_data();
    assert_eq!(img.data, vec![255u8; 16]);
    assert_eq!(img.resolution, (2, 2));
}

#[test]
fn gv_decode_failure_past_the_last_frame_degrades_to_blank() {
    let video = load_tiny_gv();
    let resolution = video.get_resolution();
    // pretend the media were longer than the backend can decode, so the
    // position can run past the last frame while still Playing
    let mut player = MoviePlayer::new(GvBgraProvider { video }, 2_000_000, resolution);
    player.set_blank_mode(BlankMode::White);
    player.play();
    player.update(1_500_000);
    let img = player.get_image_data();
    assert_eq!(img.data, vec![255, 255, 255, 255]);
    assert_eq!(img.resolution, (1, 1));
}

#[test]
fn gv_compressed_frames_pass_through_with_their_format() {
    let video = load_tiny_gv();
    let duration = gv_duration_micros(&video);
    let resolution = video.get_resolution();
    let mut player = MoviePlayer::new(GvCompressedProvider { video }, duration, resolution);
    player.play();
    player.update(0);
    let img = player.get_compressed_image_data();
    // the lz4-decompressed frame: the BC1 block plus its padding
    assert_eq!(img.data.len(), 16);
    assert_eq!(&img.data[0..8], &[0xFF, 0xFF, 0x00, 0x00, 0x00, 0x00, 0x00, 0x00]);
    assert_eq!(img.format, PixelFormat::Bc1RgbaUnormSrgb);
    assert_eq!(img.resolution, (2, 2));
}
