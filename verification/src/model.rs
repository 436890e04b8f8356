//! The typed configuration record: one canonical value per field, each with
//! its declared default. A record is total from construction on; decoding
//! only overwrites fields whose keys appear in the input.

use vstd::prelude::*;
use vstd::string::*;
use crate::color::Rgb;
use crate::enums::{FpsLimitMethod, VSync, HudPreset, HudPosition, FcatOverlayEdge};
use crate::value::{Milli, Elapsed};

verus! {

/// The configuration snapshot consumed by the overlay's renderer and
/// samplers. Every field holds either its declared default or the value its
/// key decoded to.
#[derive(Debug)]
pub struct MangoHudConfig {
    pub fps_limit: Vec<u16>,
    pub fps_limit_method: FpsLimitMethod,
    pub vsync: Option<VSync>,
    pub gl_vsync: Option<u16>,
    pub picmip: Option<i8>,
    pub af: Option<u8>,
    pub bicubic: bool,
    pub trilinear: bool,
    pub retro: bool,
    pub legacy_layout: bool,
    pub preset: HudPreset,
    pub histogram: bool,
    pub custom_text_center: String,
    pub time: bool,
    pub time_format: String,
    pub version: bool,
    pub gpu_stats: bool,
    pub gpu_temp: bool,
    pub gpu_junction_temp: bool,
    pub gpu_core_clock: bool,
    pub gpu_mem_temp: bool,
    pub gpu_mem_clock: bool,
    pub gpu_power: bool,
    pub gpu_text: String,
    pub gpu_load_change: bool,
    pub gpu_load_value: (u8, u8),
    pub gpu_load_color: (Rgb, Rgb, Rgb),
    pub cpu_stats: bool,
    pub cpu_temp: bool,
    pub cpu_power: bool,
    pub cpu_text: String,
    pub cpu_mhz: bool,
    pub cpu_load_change: bool,
    pub cpu_load_value: (u8, u8),
    pub cpu_load_color: (Rgb, Rgb, Rgb),
    pub core_load: bool,
    pub core_load_change: bool,
    pub io_read: bool,
    pub io_write: bool,
    pub vram: bool,
    pub ram: bool,
    pub swap: bool,
    pub procmem: bool,
    pub procmem_shared: bool,
    pub procmem_virt: bool,
    pub battery: bool,
    pub battery_icon: bool,
    pub gamepad_battery: bool,
    pub gamepad_battery_icon: bool,
    pub fps: bool,
    pub fps_sampling_period: Elapsed,
    pub fps_color_change: bool,
    pub fps_value: (u8, u8),
    pub fps_color: (Rgb, Rgb, Rgb),
    pub frametime: bool,
    pub frame_timing: bool,
    pub frame_count: bool,
    pub show_fps_limit: bool,
    pub throttling_status: bool,
    pub engine_version: bool,
    pub gpu_name: bool,
    pub vulkan_driver: bool,
    pub wine: bool,
    pub exec_name: bool,
    pub arch: bool,
    pub gamemode: bool,
    pub vkbasalt: bool,
    pub resolution: bool,
    pub custom_text: String,
    pub exec_cmd: String,
    pub media_player: bool,
    pub media_player_name: String,
    pub media_player_format: String,
    pub font_size: Milli,
    pub font_scale: Milli,
    pub font_size_text: Milli,
    pub font_scale_media_player: Milli,
    pub no_small_font: bool,
    pub font_file: String,
    pub font_file_text: String,
    pub font_glyph_ranges: Vec<String>,
    pub text_outline: bool,
    pub text_outline_thickness: Milli,
    pub position: HudPosition,
    pub round_corners: Milli,
    pub hud_no_margin: bool,
    pub hud_compact: bool,
    pub horizontal: bool,
    pub horizontal_stretch: bool,
    pub no_display: bool,
    pub offset_x: Milli,
    pub offset_y: Milli,
    pub width: Milli,
    pub height: Milli,
    pub table_columns: u8,
    pub cellpadding_y: Milli,
    pub background_alpha: Milli,
    pub alpha: Milli,
    pub fcat: bool,
    pub fcat_overlay_width: u16,
    pub fcat_screen_edge: FcatOverlayEdge,
    pub text_color: Rgb,
    pub gpu_color: Rgb,
    pub cpu_color: Rgb,
    pub vram_color: Rgb,
    pub ram_color: Rgb,
    pub engine_color: Rgb,
    pub io_color: Rgb,
    pub frametime_color: Rgb,
    pub background_color: Rgb,
    pub media_player_color: Rgb,
    pub wine_color: Rgb,
    pub battery_color: Rgb,
    pub text_outline_color: Rgb,
    pub pci_dev: String,
    pub blacklist: Vec<String>,
    pub control: String,
    pub gl_bind_framebuffer: Option<u16>,
    pub toggle_hud: Vec<String>,
    pub toggle_hud_position: Vec<String>,
    pub toggle_fps_limit: Vec<String>,
    pub toggle_logging: Vec<String>,
    pub reload_cfg: Vec<String>,
    pub upload_log: Vec<String>,
    pub autostart_log: bool,
    pub log_duration: Elapsed,
    pub log_interval: Elapsed,
    pub output_folder: String,
    pub permit_upload: bool,
    pub benchmark_percentiles: String,
}

/// Every field of `m` holds its declared default.
pub open spec fn is_default(m: MangoHudConfig) -> bool {
    &&& m.fps_limit@ == seq![0u16]
    &&& m.fps_limit_method == FpsLimitMethod::Late
    &&& m.vsync is None
    &&& m.gl_vsync is None
    &&& m.picmip is None
    &&& m.af is None
    &&& m.bicubic == false
    &&& m.trilinear == false
    &&& m.retro == false
    &&& m.legacy_layout == true
    &&& m.preset == HudPreset::Unset
    &&& m.histogram == false
    &&& m.custom_text_center@.len() == 0
    &&& m.time == false
    &&& m.time_format@ == "%T"@
    &&& m.version == false
    &&& m.gpu_stats == true
    &&& m.gpu_temp == false
    &&& m.gpu_junction_temp == false
    &&& m.gpu_core_clock == false
    &&& m.gpu_mem_temp == false
    &&& m.gpu_mem_clock == false
    &&& m.gpu_power == false
    &&& m.gpu_text@.len() == 0
    &&& m.gpu_load_change == false
    &&& m.gpu_load_value == (60u8, 90u8)
    &&& m.gpu_load_color == ((Rgb { r: 0x39, g: 0xf9, b: 0x00 }), (Rgb { r: 0xfd, g: 0xfd, b: 0x09 }), (Rgb { r: 0xb2, g: 0x22, b: 0x22 }))
    &&& m.cpu_stats == true
    &&& m.cpu_temp == false
    &&& m.cpu_power == false
    &&& m.cpu_text@.len() == 0
    &&& m.cpu_mhz == false
    &&& m.cpu_load_change == false
    &&& m.cpu_load_value == (60u8, 90u8)
    &&& m.cpu_load_color == ((Rgb { r: 0x39, g: 0xf9, b: 0x00 }), (Rgb { r: 0xfd, g: 0xfd, b: 0x09 }), (Rgb { r: 0xb2, g: 0x22, b: 0x22 }))
    &&& m.core_load == false
    &&& m.core_load_change == false
    &&& m.io_read == false
    &&& m.io_write == false
    &&& m.vram == false
    &&& m.ram == false
    &&& m.swap == false
    &&& m.procmem == false
    &&& m.procmem_shared == false
    &&& m.procmem_virt == false
    &&& m.battery == false
    &&& m.battery_icon == false
    &&& m.gamepad_battery == false
    &&& m.gamepad_battery_icon == false
    &&& m.fps == true
    &&& m.fps_sampling_period.nanos == 500000000
    &&& m.fps_color_change == false
    &&& m.fps_value == (30u8, 60u8)
    &&& m.fps_color == ((Rgb { r: 0xb2, g: 0x22, b: 0x22 }), (Rgb { r: 0xfd, g: 0xfd, b: 0x09 }), (Rgb { r: 0x39, g: 0xf9, b: 0x00 }))
    &&& m.frametime == true
    &&& m.frame_timing == true
    &&& m.frame_count == false
    &&& m.show_fps_limit == false
    &&& m.throttling_status == false
    &&& m.engine_version == false
    &&& m.gpu_name == false
    &&& m.vulkan_driver == false
    &&& m.wine == false
    &&& m.exec_name == false
    &&& m.arch == false
    &&& m.gamemode == false
    &&& m.vkbasalt == false
    &&& m.resolution == false
    &&& m.custom_text@.len() == 0
    &&& m.exec_cmd@.len() == 0
    &&& m.media_player == false
    &&& m.media_player_name@.len() == 0
    &&& m.media_player_format@ == "{title};{artist};{album}"@
    &&& m.font_size.thousandths == 24000
    &&& m.font_scale.thousandths == 1000
    &&& m.font_size_text.thousandths == 24000
    &&& m.font_scale_media_player.thousandths == 550
    &&& m.no_small_font == false
    &&& m.font_file@.len() == 0
    &&& m.font_file_text@.len() == 0
    &&& m.font_glyph_ranges@.len() == 0
    &&& m.text_outline == true
    &&& m.text_outline_thickness.thousandths == 1500
    &&& m.position == HudPosition::TopLeft
    &&& m.round_corners.thousandths == 0
    &&& m.hud_no_margin == false
    &&& m.hud_compact == false
    &&& m.horizontal == false
    &&& m.horizontal_stretch == true
    &&& m.no_display == false
    &&& m.offset_x.thousandths == 0
    &&& m.offset_y.thousandths == 0
    &&& m.width.thousandths == 0
    &&& m.height.thousandths == 140000
    &&& m.table_columns == 3
    &&& m.cellpadding_y.thousandths == -85
    &&& m.background_alpha.thousandths == 500
    &&& m.alpha.thousandths == 1000
    &&& m.fcat == false
    &&& m.fcat_overlay_width == 24
    &&& m.fcat_screen_edge == FcatOverlayEdge::Left
    &&& m.text_color == (Rgb { r: 0xff, g: 0xff, b: 0xff })
    &&& m.gpu_color == (Rgb { r: 0x2e, g: 0x97, b: 0x62 })
    &&& m.cpu_color == (Rgb { r: 0x2e, g: 0x97, b: 0xcb })
    &&& m.vram_color == (Rgb { r: 0xad, g: 0x64, b: 0xc1 })
    &&& m.ram_color == (Rgb { r: 0xc2, g: 0x66, b: 0x93 })
    &&& m.engine_color == (Rgb { r: 0xeb, g: 0x5b, b: 0x5b })
    &&& m.io_color == (Rgb { r: 0xa4, g: 0x91, b: 0xd3 })
    &&& m.frametime_color == (Rgb { r: 0x00, g: 0xff, b: 0x00 })
    &&& m.background_color == (Rgb { r: 0x02, g: 0x02, b: 0x02 })
    &&& m.media_player_color == (Rgb { r: 0xff, g: 0xff, b: 0xff })
    &&& m.wine_color == (Rgb { r: 0xeb, g: 0x5b, b: 0x5b })
    &&& m.battery_color == (Rgb { r: 0xff, g: 0x90, b: 0x78 })
    &&& m.text_outline_color == (Rgb { r: 0x00, g: 0x00, b: 0x00 })
    &&& m.pci_dev@.len() == 0
    &&& m.blacklist@.len() == 0
    &&& m.control@.len() == 0
    &&& m.gl_bind_framebuffer is None
    &&& m.toggle_hud@.len() == 0
    &&& m.toggle_hud_position@.len() == 0
    &&& m.toggle_fps_limit@.len() == 0
    &&& m.toggle_logging@.len() == 0
    &&& m.reload_cfg@.len() == 0
    &&& m.upload_log@.len() == 0
    &&& m.autostart_log == false
    &&& m.log_duration.nanos == 0
    &&& m.log_interval.nanos == 0
    &&& m.output_folder@.len() == 0
    &&& m.permit_upload == false
    &&& m.benchmark_percentiles@ == "97+AVG"@
}

impl MangoHudConfig {
    /// The fully defaulted record every decode starts from.
    pub fn new() -> (m: MangoHudConfig)
        ensures
            is_default(m),
    {
        let mut fps_limit_default: Vec<u16> = Vec::new();
        fps_limit_default.push(0);
        proof {
            assert(fps_limit_default@ =~= seq![0u16]);
        }
        let m = MangoHudConfig {
            fps_limit: fps_limit_default,
            fps_limit_method: FpsLimitMethod::Late,
            vsync: None,
            gl_vsync: None,
            picmip: None,
            af: None,
            bicubic: false,
            trilinear: false,
            retro: false,
            legacy_layout: true,
            preset: HudPreset::Unset,
            histogram: false,
            custom_text_center: String::new(),
            time: false,
            time_format: "%T".to_owned(),
            version: false,
            gpu_stats: true,
            gpu_temp: false,
            gpu_junction_temp: false,
            gpu_core_clock: false,
            gpu_mem_temp: false,
            gpu_mem_clock: false,
            gpu_power: false,
            gpu_text: String::new(),
            gpu_load_change: false,
            gpu_load_value: (60, 90),
            gpu_load_color: (Rgb { r: 0x39, g: 0xf9, b: 0x00 }, Rgb { r: 0xfd, g: 0xfd, b: 0x09 }, Rgb { r: 0xb2, g: 0x22, b: 0x22 }),
            cpu_stats: true,
            cpu_temp: false,
            cpu_power: false,
            cpu_text: String::new(),
            cpu_mhz: false,
            cpu_load_change: false,
            cpu_load_value: (60, 90),
            cpu_load_color: (Rgb { r: 0x39, g: 0xf9, b: 0x00 }, Rgb { r: 0xfd, g: 0xfd, b: 0x09 }, Rgb { r: 0xb2, g: 0x22, b: 0x22 }),
            core_load: false,
            core_load_change: false,
            io_read: false,
            io_write: false,
            vram: false,
            ram: false,
            swap: false,
            procmem: false,
            procmem_shared: false,
            procmem_virt: false,
            battery: false,
            battery_icon: false,
            gamepad_battery: false,
            gamepad_battery_icon: false,
            fps: true,
            fps_sampling_period: Elapsed { nanos: 500000000 },
            fps_color_change: false,
            fps_value: (30, 60),
            fps_color: (Rgb { r: 0xb2, g: 0x22, b: 0x22 }, Rgb { r: 0xfd, g: 0xfd, b: 0x09 }, Rgb { r: 0x39, g: 0xf9, b: 0x00 }),
            frametime: true,
            frame_timing: true,
            frame_count: false,
            show_fps_limit: false,
            throttling_status: false,
            engine_version: false,
            gpu_name: false,
            vulkan_driver: false,
            wine: false,
            exec_name: false,
            arch: false,
            gamemode: false,
            vkbasalt: false,
            resolution: false,
            custom_text: String::new(),
            exec_cmd: String::new(),
            media_player: false,
            media_player_name: String::new(),
            media_player_format: "{title};{artist};{album}".to_owned(),
            font_size: Milli { thousandths: 24000 },
            font_scale: Milli { thousandths: 1000 },
            font_size_text: Milli { thousandths: 24000 },
            font_scale_media_player: Milli { thousandths: 550 },
            no_small_font: false,
            font_file: String::new(),
            font_file_text: String::new(),
            font_glyph_ranges: Vec::new(),
            text_outline: true,
            text_outline_thickness: Milli { thousandths: 1500 },
            position: HudPosition::TopLeft,
            round_corners: Milli { thousandths: 0 },
            hud_no_margin: false,
            hud_compact: false,
            horizontal: false,
            horizontal_stretch: true,
            no_display: false,
            offset_x: Milli { thousandths: 0 },
            offset_y: Milli { thousandths: 0 },
            width: Milli { thousandths: 0 },
            height: Milli { thousandths: 140000 },
            table_columns: 3,
            cellpadding_y: Milli { thousandths: -85 },
            background_alpha: Milli { thousandths: 500 },
            alpha: Milli { thousandths: 1000 },
            fcat: false,
            fcat_overlay_width: 24,
            fcat_screen_edge: FcatOverlayEdge::Left,
            text_color: Rgb { r: 0xff, g: 0xff, b: 0xff },
            gpu_color: Rgb { r: 0x2e, g: 0x97, b: 0x62 },
            cpu_color: Rgb { r: 0x2e, g: 0x97, b: 0xcb },
            vram_color: Rgb { r: 0xad, g: 0x64, b: 0xc1 },
            ram_color: Rgb { r: 0xc2, g: 0x66, b: 0x93 },
            engine_color: Rgb { r: 0xeb, g: 0x5b, b: 0x5b },
            io_color: Rgb { r: 0xa4, g: 0x91, b: 0xd3 },
            frametime_color: Rgb { r: 0x00, g: 0xff, b: 0x00 },
            background_color: Rgb { r: 0x02, g: 0x02, b: 0x02 },
            media_player_color: Rgb { r: 0xff, g: 0xff, b: 0xff },
            wine_color: Rgb { r: 0xeb, g: 0x5b, b: 0x5b },
            battery_color: Rgb { r: 0xff, g: 0x90, b: 0x78 },
            text_outline_color: Rgb { r: 0x00, g: 0x00, b: 0x00 },
            pci_dev: String::new(),
            blacklist: Vec::new(),
            control: String::new(),
            gl_bind_framebuffer: None,
            toggle_hud: Vec::new(),
            toggle_hud_position: Vec::new(),
            toggle_fps_limit: Vec::new(),
            toggle_logging: Vec::new(),
            reload_cfg: Vec::new(),
            upload_log: Vec::new(),
            autostart_log: false,
            log_duration: Elapsed { nanos: 0 },
            log_interval: Elapsed { nanos: 0 },
            output_folder: String::new(),
            permit_upload: false,
            benchmark_percentiles: "97+AVG".to_owned(),
        };
        m
    }
}

} // verus!
