//! Processing modes: the integer settings of a run, the labels under which a
//! debug report names them, the named presets, and the overrides that a
//! retry plan applies.
use vstd::prelude::*;

use crate::text::{cat3, owned, str_eq};

verus! {

/// Denoise mode read back from its label: `box3` turns the box prefilter on.
pub open spec fn spec_mode_prefilter(v: Seq<char>) -> u32 {
    if v == "box3"@ { 1 } else { 0 }
}

/// Palette source read back from its label: `pixels` (0), otherwise cells (1).
pub open spec fn spec_mode_palette_source(v: Seq<char>) -> u32 {
    if v == "pixels"@ { 0 } else { 1 }
}

/// Palette cleanup mode read back from its label: `off` (0), `strict` (2),
/// otherwise basic (1).
pub open spec fn spec_mode_palette_cleanup(v: Seq<char>) -> u32 {
    if v == "off"@ { 0 } else if v == "strict"@ { 2 } else { 1 }
}

/// Cell color mode read back from its label: `mean` (0), `medoid` (2),
/// otherwise dominant (1).
pub open spec fn spec_mode_cell_color(v: Seq<char>) -> u32 {
    if v == "mean"@ { 0 } else if v == "medoid"@ { 2 } else { 1 }
}

/// Dither mode read back from its label: `fs` (1), otherwise off (0).
pub open spec fn spec_mode_dither(v: Seq<char>) -> u32 {
    if v == "fs"@ { 1 } else { 0 }
}

/// Color space read back from its label: `srgb` (0), otherwise linear (1).
pub open spec fn spec_mode_color_space(v: Seq<char>) -> u32 {
    if v == "srgb"@ { 0 } else { 1 }
}

/// Cleanup mode read back from its label: `off` (0), otherwise basic (1).
pub open spec fn spec_mode_cleanup(v: Seq<char>) -> u32 {
    if v == "off"@ { 0 } else { 1 }
}

/// Repair mode read back from its label: `off` (0), `basic` (1), `ultra` (3),
/// otherwise smart (2).
pub open spec fn spec_mode_repair(v: Seq<char>) -> u32 {
    if v == "off"@ {
        0
    } else if v == "basic"@ {
        1
    } else if v == "ultra"@ {
        3
    } else {
        2
    }
}

/// The prefilter mode named by a summary label.
pub fn mode_prefilter(value: &str) -> (r: u32)
    ensures
        r == spec_mode_prefilter(value@),
{
    if str_eq(value, "box3") {
        1
    } else {
        0
    }
}

/// The palette source named by a summary label.
pub fn mode_palette_source(value: &str) -> (r: u32)
    ensures
        r == spec_mode_palette_source(value@),
{
    if str_eq(value, "pixels") {
        0
    } else {
        1
    }
}

/// The palette cleanup mode named by a summary label.
pub fn mode_palette_cleanup(value: &str) -> (r: u32)
    ensures
        r == spec_mode_palette_cleanup(value@),
{
    if str_eq(value, "off") {
        0
    } else if str_eq(value, "strict") {
        2
    } else {
        1
    }
}

/// The cell color mode named by a summary label.
pub fn mode_cell_color(value: &str) -> (r: u32)
    ensures
        r == spec_mode_cell_color(value@),
{
    if str_eq(value, "mean") {
        0
    } else if str_eq(value, "medoid") {
        2
    } else {
        1
    }
}

/// The dither mode named by a summary label.
pub fn mode_dither(value: &str) -> (r: u32)
    ensures
        r == spec_mode_dither(value@),
{
    if str_eq(value, "fs") {
        1
    } else {
        0
    }
}

/// The color space named by a summary label.
pub fn mode_color_space(value: &str) -> (r: u32)
    ensures
        r == spec_mode_color_space(value@),
{
    if str_eq(value, "srgb") {
        0
    } else {
        1
    }
}

/// The cleanup mode named by a summary label.
pub fn mode_cleanup(value: &str) -> (r: u32)
    ensures
        r == spec_mode_cleanup(value@),
{
    if str_eq(value, "off") {
        0
    } else {
        1
    }
}

/// The repair mode named by a summary label.
pub fn mode_repair(value: &str) -> (r: u32)
    ensures
        r == spec_mode_repair(value@),
{
    if str_eq(value, "off") {
        0
    } else if str_eq(value, "basic") {
        1
    } else if str_eq(value, "ultra") {
        3
    } else {
        2
    }
}

/// Label under which a debug report names a prefilter mode.
pub open spec fn prefilter_mode_label(mode: u32) -> Seq<char> {
    if mode == 1 { "box3"@ } else { "off"@ }
}

/// Label under which a debug report names a palette source.
pub open spec fn palette_source_label(mode: u32) -> Seq<char> {
    if mode == 1 { "cells"@ } else { "pixels"@ }
}

/// Label under which a debug report names a palette cleanup mode.
pub open spec fn palette_cleanup_mode_label(mode: u32) -> Seq<char> {
    if mode == 2 { "strict"@ } else if mode == 1 { "basic"@ } else { "off"@ }
}

/// Label under which a debug report names a cell color mode.
pub open spec fn cell_color_mode_label(mode: u32) -> Seq<char> {
    if mode == 2 { "medoid"@ } else if mode == 1 { "dominant"@ } else { "mean"@ }
}

/// Label under which a debug report names a dither mode.
pub open spec fn dither_mode_label(mode: u32) -> Seq<char> {
    if mode == 1 { "fs"@ } else { "off"@ }
}

/// Label under which a debug report names a color space.
pub open spec fn color_space_label(mode: u32) -> Seq<char> {
    if mode == 1 { "linear"@ } else { "srgb"@ }
}

/// Label under which a debug report names a cleanup mode.
pub open spec fn cleanup_mode_label(mode: u32) -> Seq<char> {
    if mode == 1 { "basic"@ } else { "off"@ }
}

/// Label under which a debug report names a repair mode.
pub open spec fn repair_mode_label(mode: u32) -> Seq<char> {
    if mode == 3 {
        "ultra"@
    } else if mode == 2 {
        "smart"@
    } else if mode == 1 {
        "basic"@
    } else {
        "off"@
    }
}

/// Each mode's label is the word that the usage text lists for it.
pub proof fn lemma_mode_label_words()
    ensures
        prefilter_mode_label(0) == "off"@ && prefilter_mode_label(1) == "box3"@,
        palette_source_label(0) == "pixels"@ && palette_source_label(1) == "cells"@,
        palette_cleanup_mode_label(0) == "off"@ && palette_cleanup_mode_label(1) == "basic"@
            && palette_cleanup_mode_label(2) == "strict"@,
        cell_color_mode_label(0) == "mean"@ && cell_color_mode_label(1) == "dominant"@
            && cell_color_mode_label(2) == "medoid"@,
        dither_mode_label(0) == "off"@ && dither_mode_label(1) == "fs"@,
        color_space_label(0) == "srgb"@ && color_space_label(1) == "linear"@,
        cleanup_mode_label(0) == "off"@ && cleanup_mode_label(1) == "basic"@,
        repair_mode_label(0) == "off"@ && repair_mode_label(1) == "basic"@ && repair_mode_label(2)
            == "smart"@ && repair_mode_label(3) == "ultra"@,
{
}

/// Reading back the label that a debug report writes for a mode gives the
/// mode again, for every mode that the engine knows.
pub proof fn lemma_mode_labels_round_trip(m: u32)
    ensures
        m <= 1 ==> spec_mode_prefilter(prefilter_mode_label(m)) == m,
        m <= 1 ==> spec_mode_palette_source(palette_source_label(m)) == m,
        m <= 2 ==> spec_mode_palette_cleanup(palette_cleanup_mode_label(m)) == m,
        m <= 2 ==> spec_mode_cell_color(cell_color_mode_label(m)) == m,
        m <= 1 ==> spec_mode_dither(dither_mode_label(m)) == m,
        m <= 1 ==> spec_mode_color_space(color_space_label(m)) == m,
        m <= 1 ==> spec_mode_cleanup(cleanup_mode_label(m)) == m,
        m <= 3 ==> spec_mode_repair(repair_mode_label(m)) == m,
{
    reveal_strlit("box3");
    reveal_strlit("off");
    reveal_strlit("cells");
    reveal_strlit("pixels");
    reveal_strlit("strict");
    reveal_strlit("basic");
    reveal_strlit("medoid");
    reveal_strlit("dominant");
    reveal_strlit("mean");
    reveal_strlit("fs");
    reveal_strlit("linear");
    reveal_strlit("srgb");
    reveal_strlit("ultra");
    reveal_strlit("smart");
    assert("off"@.len() != "box3"@.len());
    assert("cells"@.len() != "pixels"@.len());
    assert("basic"@.len() != "off"@.len());
    assert("basic"@.len() != "strict"@.len());
    assert("dominant"@.len() != "mean"@.len());
    assert("dominant"@.len() != "medoid"@.len());
    assert("off"@.len() != "fs"@.len());
    assert("linear"@.len() != "srgb"@.len());
    assert("basic"@.len() != "off"@.len());
    assert("smart"@.len() != "off"@.len());
    assert("smart"@[0] != "basic"@[0]);
    assert("smart"@[0] != "ultra"@[0]);
    assert("ultra"@.len() != "off"@.len());
    assert("ultra"@[0] != "basic"@[0]);
}

/// The integer settings of a processing run: the number of palette colors
/// and the eight algorithm modes.
#[derive(Clone, Copy, Debug, PartialEq, Eq, Structural)]
pub struct Config {
    pub k_colors: usize,
    pub prefilter_mode: u32,
    pub palette_source: u32,
    pub palette_cleanup_mode: u32,
    pub cell_color_mode: u32,
    pub dither_mode: u32,
    pub color_space: u32,
    pub cleanup_mode: u32,
    pub repair_mode: u32,
}

/// The settings of a run that names no preset and overrides nothing.
pub open spec fn default_config() -> Config {
    Config {
        k_colors: 16,
        prefilter_mode: 0,
        palette_source: 1,
        palette_cleanup_mode: 1,
        cell_color_mode: 1,
        dither_mode: 0,
        color_space: 1,
        cleanup_mode: 1,
        repair_mode: 2,
    }
}

impl Default for Config {
    fn default() -> (r: Config)
        ensures
            r == default_config(),
    {
        Config {
            k_colors: 16,
            prefilter_mode: 0,
            palette_source: 1,
            palette_cleanup_mode: 1,
            cell_color_mode: 1,
            dither_mode: 0,
            color_space: 1,
            cleanup_mode: 1,
            repair_mode: 2,
        }
    }
}

/// The algorithm modes that a retry plan sets; everything else of a run
/// stays as the base configuration has it.
#[derive(Clone, Copy, Debug, PartialEq, Eq, Structural)]
pub struct RetryAlgoOverrides {
    pub denoise: u32,
    pub palette_source: u32,
    pub palette_cleanup_mode: u32,
    pub cell_color_mode: u32,
    pub dither_mode: u32,
    pub color_space: u32,
    pub cleanup_mode: u32,
    pub repair_mode: u32,
}

/// The modes of a configuration, as overrides.
pub open spec fn overrides_of(c: Config) -> RetryAlgoOverrides {
    RetryAlgoOverrides {
        denoise: c.prefilter_mode,
        palette_source: c.palette_source,
        palette_cleanup_mode: c.palette_cleanup_mode,
        cell_color_mode: c.cell_color_mode,
        dither_mode: c.dither_mode,
        color_space: c.color_space,
        cleanup_mode: c.cleanup_mode,
        repair_mode: c.repair_mode,
    }
}

/// `base` with all eight modes taken from `o`.
pub open spec fn with_overrides(base: Config, o: RetryAlgoOverrides) -> Config {
    Config {
        k_colors: base.k_colors,
        prefilter_mode: o.denoise,
        palette_source: o.palette_source,
        palette_cleanup_mode: o.palette_cleanup_mode,
        cell_color_mode: o.cell_color_mode,
        dither_mode: o.dither_mode,
        color_space: o.color_space,
        cleanup_mode: o.cleanup_mode,
        repair_mode: o.repair_mode,
    }
}

/// The modes of `config`, as overrides.
pub fn algo_overrides_from_config(config: &Config) -> (r: RetryAlgoOverrides)
    ensures
        r == overrides_of(*config),
{
    RetryAlgoOverrides {
        denoise: config.prefilter_mode,
        palette_source: config.palette_source,
        palette_cleanup_mode: config.palette_cleanup_mode,
        cell_color_mode: config.cell_color_mode,
        dither_mode: config.dither_mode,
        color_space: config.color_space,
        cleanup_mode: config.cleanup_mode,
        repair_mode: config.repair_mode,
    }
}

/// `base` with its eight modes replaced by `overrides`.
pub fn apply_retry_algo_overrides(base: &Config, overrides: &RetryAlgoOverrides) -> (r: Config)
    ensures
        r == with_overrides(*base, *overrides),
{
    let mut config = *base;
    config.prefilter_mode = overrides.denoise;
    config.palette_source = overrides.palette_source;
    config.palette_cleanup_mode = overrides.palette_cleanup_mode;
    config.cell_color_mode = overrides.cell_color_mode;
    config.dither_mode = overrides.dither_mode;
    config.color_space = overrides.color_space;
    config.cleanup_mode = overrides.cleanup_mode;
    config.repair_mode = overrides.repair_mode;
    config
}

/// Applying overrides and reading the modes back gives the overrides again;
/// applying the modes that a configuration already has changes nothing; a
/// second application of other overrides wins over the first.
pub proof fn lemma_overrides_round_trip(base: Config, o: RetryAlgoOverrides, p: RetryAlgoOverrides)
    ensures
        overrides_of(with_overrides(base, o)) == o,
        with_overrides(base, overrides_of(base)) == base,
        with_overrides(with_overrides(base, o), p) == with_overrides(base, p),
        with_overrides(base, o).k_colors == base.k_colors,
{
}

/// What a named preset sets: the palette size and the eight modes.
#[derive(Clone, Copy, Debug, PartialEq, Eq, Structural)]
pub struct PresetSpec {
    pub k_colors: usize,
    pub modes: RetryAlgoOverrides,
}

/// A preset from its palette size and its modes, in the order denoise,
/// palette source, palette cleanup, cell color, dither, color space,
/// cleanup, repair.
pub open spec fn preset(
    k: usize,
    d: u32,
    ps: u32,
    pc: u32,
    cc: u32,
    di: u32,
    cs: u32,
    cl: u32,
    rp: u32,
) -> PresetSpec {
    PresetSpec {
        k_colors: k,
        modes: RetryAlgoOverrides {
            denoise: d,
            palette_source: ps,
            palette_cleanup_mode: pc,
            cell_color_mode: cc,
            dither_mode: di,
            color_space: cs,
            cleanup_mode: cl,
            repair_mode: rp,
        },
    }
}

/// The named presets.
pub open spec fn spec_preset_by_name(name: Seq<char>) -> Option<PresetSpec> {
    if name == "ai-sprite"@ {
        Some(preset(24, 1, 1, 2, 2, 0, 1, 1, 2))
    } else if name == "strict-retro"@ {
        Some(preset(16, 1, 1, 2, 1, 0, 1, 1, 2))
    } else if name == "tileset-cleanup"@ {
        Some(preset(32, 1, 1, 1, 1, 0, 1, 1, 2))
    } else if name == "character-cleanup"@ {
        Some(preset(20, 1, 1, 2, 2, 0, 1, 1, 2))
    } else if name == "icon-cleanup"@ {
        Some(preset(12, 1, 1, 2, 1, 0, 1, 1, 2))
    } else if name == "ultra-cleanup"@ {
        Some(preset(24, 1, 1, 2, 2, 0, 1, 1, 3))
    } else {
        None
    }
}

/// The lengths and first characters of the preset names, enough to tell
/// them apart.
proof fn lemma_preset_spellings()
    ensures
        "ai-sprite"@.len() == 9,
        "ai-sprite"@[0] == 'a',
        "strict-retro"@.len() == 12,
        "strict-retro"@[0] == 's',
        "tileset-cleanup"@.len() == 15,
        "tileset-cleanup"@[0] == 't',
        "character-cleanup"@.len() == 17,
        "character-cleanup"@[0] == 'c',
        "icon-cleanup"@.len() == 12,
        "icon-cleanup"@[0] == 'i',
        "ultra-cleanup"@.len() == 13,
        "ultra-cleanup"@[0] == 'u',
{
    reveal_strlit("ai-sprite");
    reveal_strlit("strict-retro");
    reveal_strlit("tileset-cleanup");
    reveal_strlit("character-cleanup");
    reveal_strlit("icon-cleanup");
    reveal_strlit("ultra-cleanup");
}

/// The presets: exactly the six names of the usage text are known. Every
/// preset denoises with box3, takes the palette from the cells, does not
/// dither, works in linear color space and runs basic cleanup; each then
/// has its own palette size, palette cleanup, cell color and repair.
pub proof fn lemma_preset_table(name: Seq<char>)
    ensures
        spec_preset_by_name(name) is Some <==> (name == "ai-sprite"@ || name == "strict-retro"@
            || name == "tileset-cleanup"@ || name == "character-cleanup"@ || name
            == "icon-cleanup"@ || name == "ultra-cleanup"@),
        spec_preset_by_name(name) matches Some(p) ==> {
            &&& prefilter_mode_label(p.modes.denoise) == "box3"@ && p.modes.denoise == 1
            &&& palette_source_label(p.modes.palette_source) == "cells"@ && p.modes.palette_source == 1
            &&& dither_mode_label(p.modes.dither_mode) == "off"@ && p.modes.dither_mode == 0
            &&& color_space_label(p.modes.color_space) == "linear"@ && p.modes.color_space == 1
            &&& cleanup_mode_label(p.modes.cleanup_mode) == "basic"@ && p.modes.cleanup_mode == 1
        },
        name == "ai-sprite"@ ==> (spec_preset_by_name(name) matches Some(p) && p.k_colors == 24
            && p.modes.palette_cleanup_mode == 2 && p.modes.cell_color_mode == 2
            && p.modes.repair_mode == 2),
        name == "strict-retro"@ ==> (spec_preset_by_name(name) matches Some(p) && p.k_colors == 16
            && p.modes.palette_cleanup_mode == 2 && p.modes.cell_color_mode == 1
            && p.modes.repair_mode == 2),
        name == "tileset-cleanup"@ ==> (spec_preset_by_name(name) matches Some(p) && p.k_colors == 32
            && p.modes.palette_cleanup_mode == 1 && p.modes.cell_color_mode == 1
            && p.modes.repair_mode == 2),
        name == "character-cleanup"@ ==> (spec_preset_by_name(name) matches Some(p) && p.k_colors == 20
            && p.modes.palette_cleanup_mode == 2 && p.modes.cell_color_mode == 2
            && p.modes.repair_mode == 2),
        name == "icon-cleanup"@ ==> (spec_preset_by_name(name) matches Some(p) && p.k_colors == 12
            && p.modes.palette_cleanup_mode == 2 && p.modes.cell_color_mode == 1
            && p.modes.repair_mode == 2),
        name == "ultra-cleanup"@ ==> (spec_preset_by_name(name) matches Some(p) && p.k_colors == 24
            && p.modes.palette_cleanup_mode == 2 && p.modes.cell_color_mode == 2
            && p.modes.repair_mode == 3),
{
    lemma_preset_spellings();
}

/// How the presets relate: ultra-cleanup is ai-sprite with ultra repair,
/// character-cleanup is ai-sprite with 20 colors, strict-retro is
/// icon-cleanup with 16 colors, and tileset-cleanup is strict-retro with 32
/// colors and basic palette cleanup.
pub proof fn lemma_presets_relate()
    ensures
        spec_preset_by_name("ultra-cleanup"@) == Some(
            PresetSpec {
                modes: RetryAlgoOverrides {
                    repair_mode: 3,
                    ..spec_preset_by_name("ai-sprite"@)->0.modes
                },
                ..spec_preset_by_name("ai-sprite"@)->0
            },
        ),
        spec_preset_by_name("character-cleanup"@) == Some(
            PresetSpec { k_colors: 20, ..spec_preset_by_name("ai-sprite"@)->0 },
        ),
        spec_preset_by_name("strict-retro"@) == Some(
            PresetSpec { k_colors: 16, ..spec_preset_by_name("icon-cleanup"@)->0 },
        ),
        spec_preset_by_name("tileset-cleanup"@) == Some(
            PresetSpec {
                k_colors: 32,
                modes: RetryAlgoOverrides {
                    palette_cleanup_mode: 1,
                    ..spec_preset_by_name("strict-retro"@)->0.modes
                },
            },
        ),
{
    lemma_preset_spellings();
}

/// The preset of the given name, if there is one.
pub fn preset_by_name(name: &str) -> (r: Option<PresetSpec>)
    ensures
        r == spec_preset_by_name(name@),
{
    if str_eq(name, "ai-sprite") {
        Some(
            PresetSpec {
                k_colors: 24,
                modes: RetryAlgoOverrides {
                    denoise: 1,
                    palette_source: 1,
                    palette_cleanup_mode: 2,
                    cell_color_mode: 2,
                    dither_mode: 0,
                    color_space: 1,
                    cleanup_mode: 1,
                    repair_mode: 2,
                },
            },
        )
    } else if str_eq(name, "strict-retro") {
        Some(
            PresetSpec {
                k_colors: 16,
                modes: RetryAlgoOverrides {
                    denoise: 1,
                    palette_source: 1,
                    palette_cleanup_mode: 2,
                    cell_color_mode: 1,
                    dither_mode: 0,
                    color_space: 1,
                    cleanup_mode: 1,
                    repair_mode: 2,
                },
            },
        )
    } else if str_eq(name, "tileset-cleanup") {
        Some(
            PresetSpec {
                k_colors: 32,
                modes: RetryAlgoOverrides {
                    denoise: 1,
                    palette_source: 1,
                    palette_cleanup_mode: 1,
                    cell_color_mode: 1,
                    dither_mode: 0,
                    color_space: 1,
                    cleanup_mode: 1,
                    repair_mode: 2,
                },
            },
        )
    } else if str_eq(name, "character-cleanup") {
        Some(
            PresetSpec {
                k_colors: 20,
                modes: RetryAlgoOverrides {
                    denoise: 1,
                    palette_source: 1,
                    palette_cleanup_mode: 2,
                    cell_color_mode: 2,
                    dither_mode: 0,
                    color_space: 1,
                    cleanup_mode: 1,
                    repair_mode: 2,
                },
            },
        )
    } else if str_eq(name, "icon-cleanup") {
        Some(
            PresetSpec {
                k_colors: 12,
                modes: RetryAlgoOverrides {
                    denoise: 1,
                    palette_source: 1,
                    palette_cleanup_mode: 2,
                    cell_color_mode: 1,
                    dither_mode: 0,
                    color_space: 1,
                    cleanup_mode: 1,
                    repair_mode: 2,
                },
            },
        )
    } else if str_eq(name, "ultra-cleanup") {
        Some(
            PresetSpec {
                k_colors: 24,
                modes: RetryAlgoOverrides {
                    denoise: 1,
                    palette_source: 1,
                    palette_cleanup_mode: 2,
                    cell_color_mode: 2,
                    dither_mode: 0,
                    color_space: 1,
                    cleanup_mode: 1,
                    repair_mode: 3,
                },
            },
        )
    } else {
        None
    }
}

/// An input that the command line refuses, with the message that says why.
#[derive(Debug)]
pub enum CliError {
    InvalidInput(String),
}

impl CliError {
    /// The text under which the error is reported (`Invalid input: ...`).
    pub fn message(&self) -> (r: String)
        ensures
            r@ == "Invalid input: "@ + self.text(),
    {
        match self {
            CliError::InvalidInput(m) => crate::text::cat("Invalid input: ", m.as_str()),
        }
    }

    /// The message carried by the error.
    pub open spec fn text(&self) -> Seq<char> {
        match self {
            CliError::InvalidInput(m) => m@,
        }
    }
}

/// The list of known presets, as the unknown-preset message gives it.
pub open spec fn unknown_preset_text(name: Seq<char>) -> Seq<char> {
    "unknown preset '"@ + name
        + "'. Available presets: ai-sprite, strict-retro, tileset-cleanup, character-cleanup, icon-cleanup, ultra-cleanup"@
}

/// `config` with the palette size and modes of preset `p`.
pub open spec fn with_preset(config: Config, p: PresetSpec) -> Config {
    with_overrides(Config { k_colors: p.k_colors, ..config }, p.modes)
}

/// Sets the palette size and the eight modes of `config` from the preset
/// named `preset_name`; an unknown name is refused and leaves `config` as it was.
pub fn apply_named_preset(config: &mut Config, preset_name: &str) -> (r: Result<(), CliError>)
    ensures
        match spec_preset_by_name(preset_name@) {
            Some(p) => r is Ok && *final(config) == with_preset(*old(config), p),
            None => r matches Err(e) && e.text() == unknown_preset_text(preset_name@)
                && *final(config) == *old(config),
        },
{
    match preset_by_name(preset_name) {
        Some(p) => {
            config.k_colors = p.k_colors;
            config.prefilter_mode = p.modes.denoise;
            config.palette_source = p.modes.palette_source;
            config.palette_cleanup_mode = p.modes.palette_cleanup_mode;
            config.cell_color_mode = p.modes.cell_color_mode;
            config.dither_mode = p.modes.dither_mode;
            config.color_space = p.modes.color_space;
            config.cleanup_mode = p.modes.cleanup_mode;
            config.repair_mode = p.modes.repair_mode;
            Ok(())
        },
        None => Err(
            CliError::InvalidInput(
                cat3(
                    "unknown preset '",
                    preset_name,
                    "'. Available presets: ai-sprite, strict-retro, tileset-cleanup, character-cleanup, icon-cleanup, ultra-cleanup",
                ),
            ),
        ),
    }
}

} // verus!
