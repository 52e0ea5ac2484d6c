//! The command line: its options, the settings they give, and the inputs
//! that it refuses.
//!
//! Arguments are read from the fourth on (after the program, the input path
//! and the output path). A flag that takes a value reads the next argument;
//! a later flag replaces what an earlier one of the same name set. The
//! first argument that cannot be read stops the reading with its message.
use vstd::prelude::*;

use crate::modes::{
    apply_named_preset, cell_color_mode_label, cleanup_mode_label, color_space_label,
    default_config, dither_mode_label, palette_cleanup_mode_label, palette_source_label,
    prefilter_mode_label, repair_mode_label, spec_preset_by_name, unknown_preset_text,
    with_preset, CliError, Config, PresetSpec,
};
use crate::text::{
    cat, cat3, is_blank, is_blank_str, owned, parse_usize, parse_usize_str, starts_with,
    starts_with_str, str_eq,
};

verus! {

/// What the command line asked for.
#[derive(Debug)]
pub struct CliOptions {
    pub input_path: String,
    pub output_path: String,
    pub k_colors: Option<usize>,
    pub preset_name: Option<String>,
    /// The text given to `--pixel-size`, already known to be a positive
    /// finite number.
    pub pixel_size: Option<String>,
    pub denoise: Option<u32>,
    pub palette_source: Option<u32>,
    pub palette_lock_path: Option<String>,
    pub palette_cleanup_mode: Option<u32>,
    pub cell_color_mode: Option<u32>,
    pub dither: Option<u32>,
    pub color_space: Option<u32>,
    pub cleanup_mode: Option<u32>,
    pub repair_mode: Option<u32>,
    pub debug_json: bool,
    pub debug_overlay: bool,
    pub debug_heatmap: bool,
    pub debug_dir: Option<String>,
    pub review_pack_top: Option<usize>,
    pub retry_review_top: Option<usize>,
    pub recommend_variant: bool,
}

/// The options, with their texts as character sequences.
pub struct OptionsView {
    pub input_path: Seq<char>,
    pub output_path: Seq<char>,
    pub k_colors: Option<usize>,
    pub preset_name: Option<Seq<char>>,
    pub pixel_size: Option<Seq<char>>,
    pub denoise: Option<u32>,
    pub palette_source: Option<u32>,
    pub palette_lock_path: Option<Seq<char>>,
    pub palette_cleanup_mode: Option<u32>,
    pub cell_color_mode: Option<u32>,
    pub dither: Option<u32>,
    pub color_space: Option<u32>,
    pub cleanup_mode: Option<u32>,
    pub repair_mode: Option<u32>,
    pub debug_json: bool,
    pub debug_overlay: bool,
    pub debug_heatmap: bool,
    pub debug_dir: Option<Seq<char>>,
    pub review_pack_top: Option<usize>,
    pub retry_review_top: Option<usize>,
    pub recommend_variant: bool,
}

/// The characters of an optional string.
pub open spec fn opt_view(o: Option<String>) -> Option<Seq<char>> {
    match o {
        Some(s) => Some(s@),
        None => None,
    }
}

impl View for CliOptions {
    type V = OptionsView;

    open spec fn view(&self) -> OptionsView {
        OptionsView {
            input_path: self.input_path@,
            output_path: self.output_path@,
            k_colors: self.k_colors,
            preset_name: opt_view(self.preset_name),
            pixel_size: opt_view(self.pixel_size),
            denoise: self.denoise,
            palette_source: self.palette_source,
            palette_lock_path: opt_view(self.palette_lock_path),
            palette_cleanup_mode: self.palette_cleanup_mode,
            cell_color_mode: self.cell_color_mode,
            dither: self.dither,
            color_space: self.color_space,
            cleanup_mode: self.cleanup_mode,
            repair_mode: self.repair_mode,
            debug_json: self.debug_json,
            debug_overlay: self.debug_overlay,
            debug_heatmap: self.debug_heatmap,
            debug_dir: opt_view(self.debug_dir),
            review_pack_top: self.review_pack_top,
            retry_review_top: self.retry_review_top,
            recommend_variant: self.recommend_variant,
        }
    }
}

/// The usage text, given when input or output is missing.
pub open spec fn usage_text() -> Seq<char> {
    "Usage: nasty-retropixel-cli <input> <output> [k_colors] [--preset ai-sprite|strict-retro|tileset-cleanup|character-cleanup|icon-cleanup|ultra-cleanup|auto] [--pixel-size <n>] [--denoise off|box3] [--palette-source pixels|cells] [--palette-lock <palette.png>] [--palette-cleanup off|basic|strict] [--cell-color mean|dominant|medoid] [--dither off|fs] [--color-space srgb|linear] [--cleanup off|basic] [--repair off|basic|smart|ultra] [--recommend-variant] [--debug-json] [--debug-overlay] [--debug-heatmap] [--debug-dir <path>] [--review-pack-top <n>] [--retry-review-top <n>]\n\nNotes:\n- Use a file input + file output for single image.\n- Use a directory input + directory output for batch processing."@
}

/// Flags that pick one of a few named modes.
pub open spec fn is_choice_flag(f: Seq<char>) -> bool {
    ||| f == "--denoise"@
    ||| f == "--palette-source"@
    ||| f == "--palette-cleanup"@
    ||| f == "--cell-color"@
    ||| f == "--dither"@
    ||| f == "--color-space"@
    ||| f == "--cleanup"@
    ||| f == "--repair"@
}

/// Flags that take a text which must not be blank.
pub open spec fn is_text_flag(f: Seq<char>) -> bool {
    f == "--preset"@ || f == "--palette-lock"@ || f == "--debug-dir"@
}

/// Flags that take a positive count.
pub open spec fn is_count_flag(f: Seq<char>) -> bool {
    f == "--review-pack-top"@ || f == "--retry-review-top"@
}

/// Flags that take no value.
pub open spec fn is_switch(f: Seq<char>) -> bool {
    ||| f == "--debug-json"@
    ||| f == "--debug-overlay"@
    ||| f == "--debug-heatmap"@
    ||| f == "--recommend-variant"@
}

/// Flags that read the next argument.
pub open spec fn takes_value(f: Seq<char>) -> bool {
    f == "--pixel-size"@ || is_choice_flag(f) || is_text_flag(f) || is_count_flag(f)
}

/// The mode that a choice flag's value names, if it names one.
pub open spec fn choice_code(f: Seq<char>, v: Seq<char>) -> Option<u32> {
    if f == "--denoise"@ {
        if v == "off"@ { Some(0) } else if v == "box3"@ { Some(1) } else { None }
    } else if f == "--palette-source"@ {
        if v == "pixels"@ { Some(0) } else if v == "cells"@ { Some(1) } else { None }
    } else if f == "--palette-cleanup"@ {
        if v == "off"@ {
            Some(0)
        } else if v == "basic"@ {
            Some(1)
        } else if v == "strict"@ {
            Some(2)
        } else {
            None
        }
    } else if f == "--cell-color"@ {
        if v == "mean"@ {
            Some(0)
        } else if v == "dominant"@ {
            Some(1)
        } else if v == "medoid"@ {
            Some(2)
        } else {
            None
        }
    } else if f == "--dither"@ {
        if v == "off"@ { Some(0) } else if v == "fs"@ { Some(1) } else { None }
    } else if f == "--color-space"@ {
        if v == "srgb"@ { Some(0) } else if v == "linear"@ { Some(1) } else { None }
    } else if f == "--cleanup"@ {
        if v == "off"@ { Some(0) } else if v == "basic"@ { Some(1) } else { None }
    } else if f == "--repair"@ {
        if v == "off"@ {
            Some(0)
        } else if v == "basic"@ {
            Some(1)
        } else if v == "smart"@ {
            Some(2)
        } else if v == "ultra"@ {
            Some(3)
        } else {
            None
        }
    } else {
        None
    }
}

/// `o` with the mode of choice flag `f` set to `c`.
pub open spec fn set_choice(o: OptionsView, f: Seq<char>, c: u32) -> OptionsView {
    if f == "--denoise"@ {
        OptionsView { denoise: Some(c), ..o }
    } else if f == "--palette-source"@ {
        OptionsView { palette_source: Some(c), ..o }
    } else if f == "--palette-cleanup"@ {
        OptionsView { palette_cleanup_mode: Some(c), ..o }
    } else if f == "--cell-color"@ {
        OptionsView { cell_color_mode: Some(c), ..o }
    } else if f == "--dither"@ {
        OptionsView { dither: Some(c), ..o }
    } else if f == "--color-space"@ {
        OptionsView { color_space: Some(c), ..o }
    } else if f == "--cleanup"@ {
        OptionsView { cleanup_mode: Some(c), ..o }
    } else {
        OptionsView { repair_mode: Some(c), ..o }
    }
}

/// `o` with the text of text flag `f` set to `v`.
pub open spec fn set_text(o: OptionsView, f: Seq<char>, v: Seq<char>) -> OptionsView {
    if f == "--preset"@ {
        OptionsView { preset_name: Some(v), ..o }
    } else if f == "--palette-lock"@ {
        OptionsView { palette_lock_path: Some(v), ..o }
    } else {
        OptionsView { debug_dir: Some(v), ..o }
    }
}

/// `o` with the count of count flag `f` set to `n`.
pub open spec fn set_count(o: OptionsView, f: Seq<char>, n: usize) -> OptionsView {
    if f == "--review-pack-top"@ {
        OptionsView { review_pack_top: Some(n), ..o }
    } else {
        OptionsView { retry_review_top: Some(n), ..o }
    }
}

/// `o` with switch `f` turned on.
pub open spec fn set_switch(o: OptionsView, f: Seq<char>) -> OptionsView {
    if f == "--debug-json"@ {
        OptionsView { debug_json: true, ..o }
    } else if f == "--debug-overlay"@ {
        OptionsView { debug_overlay: true, ..o }
    } else if f == "--debug-heatmap"@ {
        OptionsView { debug_heatmap: true, ..o }
    } else {
        OptionsView { recommend_variant: true, ..o }
    }
}

/// The message for a value that a flag does not accept.
pub open spec fn invalid_value_text(f: Seq<char>, v: Seq<char>) -> Seq<char> {
    "invalid "@ + f + " '"@ + v + "'"@
}

/// Reads the argument at `i` (and its value, for a flag that takes one):
/// the position of the next argument and the options so far, or the message
/// of the refusal. `pixel_size_ok[k]` says whether argument `k` reads as a
/// positive finite number.
pub open spec fn parse_step(
    args: Seq<Seq<char>>,
    pixel_size_ok: Seq<bool>,
    i: int,
    o: OptionsView,
) -> Result<(int, OptionsView), Seq<char>> {
    let a = args[i];
    if takes_value(a) {
        if i + 1 >= args.len() {
            Err(a + " requires a value"@)
        } else {
            let v = args[i + 1];
            if a == "--pixel-size"@ {
                if pixel_size_ok[i + 1] {
                    Ok((i + 2, OptionsView { pixel_size: Some(v), ..o }))
                } else {
                    Err(invalid_value_text(a, v))
                }
            } else if is_choice_flag(a) {
                match choice_code(a, v) {
                    Some(c) => Ok((i + 2, set_choice(o, a, c))),
                    None => Err(invalid_value_text(a, v)),
                }
            } else if is_text_flag(a) {
                if is_blank(v) {
                    Err(a + " cannot be empty"@)
                } else {
                    Ok((i + 2, set_text(o, a, v)))
                }
            } else {
                match parse_usize(v) {
                    Some(n) if n > 0 => Ok((i + 2, set_count(o, a, n as usize))),
                    _ => Err(invalid_value_text(a, v)),
                }
            }
        }
    } else if is_switch(a) {
        Ok((i + 1, set_switch(o, a)))
    } else if starts_with(a, "--"@) {
        Err("unknown argument '"@ + a + "'"@)
    } else {
        match parse_usize(a) {
            Some(k) if k > 0 => Ok((i + 1, OptionsView { k_colors: Some(k as usize), ..o })),
            _ => Err("invalid k_colors '"@ + a + "'"@),
        }
    }
}

/// Reads the arguments from position `i` on, starting from options `o`.
pub open spec fn parse_from(
    args: Seq<Seq<char>>,
    pixel_size_ok: Seq<bool>,
    i: int,
    o: OptionsView,
) -> Result<OptionsView, Seq<char>>
    decreases args.len() - i,
{
    if i < 0 || i >= args.len() {
        Ok(o)
    } else {
        match parse_step(args, pixel_size_ok, i, o) {
            Err(m) => Err(m),
            Ok((j, next)) => if i < j <= args.len() {
                parse_from(args, pixel_size_ok, j, next)
            } else {
                Ok(next)
            },
        }
    }
}

/// The options before any flag is read.
pub open spec fn initial_options(args: Seq<Seq<char>>) -> OptionsView {
    OptionsView {
        input_path: args[1],
        output_path: args[2],
        k_colors: None,
        preset_name: None,
        pixel_size: None,
        denoise: None,
        palette_source: None,
        palette_lock_path: None,
        palette_cleanup_mode: None,
        cell_color_mode: None,
        dither: None,
        color_space: None,
        cleanup_mode: None,
        repair_mode: None,
        debug_json: false,
        debug_overlay: false,
        debug_heatmap: false,
        debug_dir: None,
        review_pack_top: None,
        retry_review_top: None,
        recommend_variant: false,
    }
}

/// What the command line `args` asks for, or the message of its refusal.
pub open spec fn spec_parse_cli(args: Seq<Seq<char>>, pixel_size_ok: Seq<bool>) -> Result<
    OptionsView,
    Seq<char>,
> {
    if args.len() < 3 {
        Err(usage_text())
    } else {
        parse_from(args, pixel_size_ok, 3, initial_options(args))
    }
}

/// The characters of each argument.
pub open spec fn arg_views(args: Seq<String>) -> Seq<Seq<char>> {
    args.map_values(|a: String| a@)
}

/// Whether `a` is a choice flag.
fn choice_flag(a: &str) -> (r: bool)
    ensures
        r == is_choice_flag(a@),
{
    str_eq(a, "--denoise") || str_eq(a, "--palette-source") || str_eq(a, "--palette-cleanup")
        || str_eq(a, "--cell-color") || str_eq(a, "--dither") || str_eq(a, "--color-space")
        || str_eq(a, "--cleanup") || str_eq(a, "--repair")
}

/// Whether `a` is a text flag.
fn text_flag(a: &str) -> (r: bool)
    ensures
        r == is_text_flag(a@),
{
    str_eq(a, "--preset") || str_eq(a, "--palette-lock") || str_eq(a, "--debug-dir")
}

/// Whether `a` is a count flag.
fn count_flag(a: &str) -> (r: bool)
    ensures
        r == is_count_flag(a@),
{
    str_eq(a, "--review-pack-top") || str_eq(a, "--retry-review-top")
}

/// Whether `a` is a switch.
fn switch_flag(a: &str) -> (r: bool)
    ensures
        r == is_switch(a@),
{
    str_eq(a, "--debug-json") || str_eq(a, "--debug-overlay") || str_eq(a, "--debug-heatmap")
        || str_eq(a, "--recommend-variant")
}

/// The code of value `v` among `names` (index order), if it is there.
fn code_among(v: &str, n0: &str, n1: &str, n2: &str, n3: &str, count: u32) -> (r: Option<u32>)
    requires
        2 <= count <= 4,
    ensures
        r == (if v@ == n0@ {
            Some(0u32)
        } else if v@ == n1@ {
            Some(1u32)
        } else if count >= 3 && v@ == n2@ {
            Some(2u32)
        } else if count >= 4 && v@ == n3@ {
            Some(3u32)
        } else {
            None
        }),
{
    if str_eq(v, n0) {
        Some(0)
    } else if str_eq(v, n1) {
        Some(1)
    } else if count >= 3 && str_eq(v, n2) {
        Some(2)
    } else if count >= 4 && str_eq(v, n3) {
        Some(3)
    } else {
        None
    }
}

/// The mode that choice flag `f`'s value `v` names, if it names one.
fn choice_value(f: &str, v: &str) -> (r: Option<u32>)
    ensures
        r == choice_code(f@, v@),
{
    if str_eq(f, "--denoise") {
        code_among(v, "off", "box3", "", "", 2)
    } else if str_eq(f, "--palette-source") {
        code_among(v, "pixels", "cells", "", "", 2)
    } else if str_eq(f, "--palette-cleanup") {
        code_among(v, "off", "basic", "strict", "", 3)
    } else if str_eq(f, "--cell-color") {
        code_among(v, "mean", "dominant", "medoid", "", 3)
    } else if str_eq(f, "--dither") {
        code_among(v, "off", "fs", "", "", 2)
    } else if str_eq(f, "--color-space") {
        code_among(v, "srgb", "linear", "", "", 2)
    } else if str_eq(f, "--cleanup") {
        code_among(v, "off", "basic", "", "", 2)
    } else if str_eq(f, "--repair") {
        code_among(v, "off", "basic", "smart", "ultra", 4)
    } else {
        None
    }
}

/// Sets the mode of choice flag `f` to `c`.
fn apply_choice(o: &mut CliOptions, f: &str, c: u32)
    ensures
        final(o)@ == set_choice(old(o)@, f@, c),
{
    if str_eq(f, "--denoise") {
        o.denoise = Some(c);
    } else if str_eq(f, "--palette-source") {
        o.palette_source = Some(c);
    } else if str_eq(f, "--palette-cleanup") {
        o.palette_cleanup_mode = Some(c);
    } else if str_eq(f, "--cell-color") {
        o.cell_color_mode = Some(c);
    } else if str_eq(f, "--dither") {
        o.dither = Some(c);
    } else if str_eq(f, "--color-space") {
        o.color_space = Some(c);
    } else if str_eq(f, "--cleanup") {
        o.cleanup_mode = Some(c);
    } else {
        o.repair_mode = Some(c);
    }
}

/// Sets the text of text flag `f` to `v`.
fn apply_text(o: &mut CliOptions, f: &str, v: &str)
    ensures
        final(o)@ == set_text(old(o)@, f@, v@),
{
    if str_eq(f, "--preset") {
        o.preset_name = Some(owned(v));
    } else if str_eq(f, "--palette-lock") {
        o.palette_lock_path = Some(owned(v));
    } else {
        o.debug_dir = Some(owned(v));
    }
}

/// Sets the count of count flag `f` to `n`.
fn apply_count(o: &mut CliOptions, f: &str, n: usize)
    ensures
        final(o)@ == set_count(old(o)@, f@, n),
{
    if str_eq(f, "--review-pack-top") {
        o.review_pack_top = Some(n);
    } else {
        o.retry_review_top = Some(n);
    }
}

/// Turns switch `f` on.
fn apply_switch(o: &mut CliOptions, f: &str)
    ensures
        final(o)@ == set_switch(old(o)@, f@),
{
    if str_eq(f, "--debug-json") {
        o.debug_json = true;
    } else if str_eq(f, "--debug-overlay") {
        o.debug_overlay = true;
    } else if str_eq(f, "--debug-heatmap") {
        o.debug_heatmap = true;
    } else {
        o.recommend_variant = true;
    }
}

/// The refusal of value `v` for flag `f`.
fn invalid_value(f: &str, v: &str) -> (e: CliError)
    ensures
        e.text() == invalid_value_text(f@, v@),
{
    let head = cat3("invalid ", f, " '");
    CliError::InvalidInput(cat3(head.as_str(), v, "'"))
}

/// Reads the value `v` of a flag `a` that takes one.
fn read_value(a: &str, v: &str, v_is_pixel_size: bool, o: &mut CliOptions) -> (r: Result<(), CliError>)
    requires
        takes_value(a@),
    ensures
        match r {
            Ok(()) => {
                if a@ == "--pixel-size"@ {
                    v_is_pixel_size && final(o)@ == (OptionsView { pixel_size: Some(v@), ..old(o)@ })
                } else if is_choice_flag(a@) {
                    choice_code(a@, v@) matches Some(c) && final(o)@ == set_choice(old(o)@, a@, c)
                } else if is_text_flag(a@) {
                    !is_blank(v@) && final(o)@ == set_text(old(o)@, a@, v@)
                } else {
                    parse_usize(v@) matches Some(n) && n > 0 && final(o)@ == set_count(
                        old(o)@,
                        a@,
                        n as usize,
                    )
                }
            },
            Err(e) => {
                if a@ == "--pixel-size"@ {
                    !v_is_pixel_size && e.text() == invalid_value_text(a@, v@)
                } else if is_choice_flag(a@) {
                    choice_code(a@, v@) is None && e.text() == invalid_value_text(a@, v@)
                } else if is_text_flag(a@) {
                    is_blank(v@) && e.text() == a@ + " cannot be empty"@
                } else {
                    !(parse_usize(v@) matches Some(n) && n > 0) && e.text() == invalid_value_text(
                        a@,
                        v@,
                    )
                }
            },
        },
{
    if str_eq(a, "--pixel-size") {
        if v_is_pixel_size {
            o.pixel_size = Some(owned(v));
            Ok(())
        } else {
            Err(invalid_value(a, v))
        }
    } else if choice_flag(a) {
        match choice_value(a, v) {
            Some(c) => {
                apply_choice(o, a, c);
                Ok(())
            },
            None => Err(invalid_value(a, v)),
        }
    } else if text_flag(a) {
        if is_blank_str(v) {
            Err(CliError::InvalidInput(cat(a, " cannot be empty")))
        } else {
            apply_text(o, a, v);
            Ok(())
        }
    } else {
        match parse_usize_str(v) {
            Some(n) => {
                if n > 0 {
                    apply_count(o, a, n);
                    Ok(())
                } else {
                    Err(invalid_value(a, v))
                }
            },
            None => Err(invalid_value(a, v)),
        }
    }
}

/// Whether `a` is a flag that reads the next argument.
fn value_flag(a: &str) -> (r: bool)
    ensures
        r == takes_value(a@),
{
    str_eq(a, "--pixel-size") || choice_flag(a) || text_flag(a) || count_flag(a)
}

/// Reads the argument at `i`: the position of the next argument, or the
/// refusal.
fn step(args: &Vec<String>, pixel_size_ok: &Vec<bool>, i: usize, o: &mut CliOptions) -> (r: Result<
    usize,
    CliError,
>)
    requires
        i < args@.len(),
        pixel_size_ok@.len() == args@.len(),
    ensures
        match r {
            Ok(j) => parse_step(arg_views(args@), pixel_size_ok@, i as int, old(o)@) == Ok::<
                (int, OptionsView),
                Seq<char>,
            >((j as int, final(o)@)),
            Err(e) => parse_step(arg_views(args@), pixel_size_ok@, i as int, old(o)@) == Err::<
                (int, OptionsView),
                Seq<char>,
            >(e.text()),
        },
{
    let ghost views = arg_views(args@);
    assert(views[i as int] == args@[i as int]@);
    let n = args.len();
    let a = args[i].as_str();
    if value_flag(a) {
        if i + 1 >= n {
            return Err(CliError::InvalidInput(cat(a, " requires a value")));
        }
        assert(views[i + 1] == args@[i + 1]@);
        let v = args[i + 1].as_str();
        match read_value(a, v, pixel_size_ok[i + 1], o) {
            Ok(()) => Ok(i + 2),
            Err(e) => Err(e),
        }
    } else if switch_flag(a) {
        apply_switch(o, a);
        Ok(i + 1)
    } else if starts_with_str(a, "--") {
        Err(CliError::InvalidInput(cat3("unknown argument '", a, "'")))
    } else {
        match parse_usize_str(a) {
            Some(k) => {
                if k > 0 {
                    o.k_colors = Some(k);
                    Ok(i + 1)
                } else {
                    Err(CliError::InvalidInput(cat3("invalid k_colors '", a, "'")))
                }
            },
            None => Err(CliError::InvalidInput(cat3("invalid k_colors '", a, "'"))),
        }
    }
}

/// Reads the command line `args` (program, input, output, then options).
/// `pixel_size_ok[k]` says whether argument `k` reads as a positive finite
/// number, which is what `--pixel-size` asks of its value.
pub fn parse_cli_args(args: &Vec<String>, pixel_size_ok: &Vec<bool>) -> (r: Result<
    CliOptions,
    CliError,
>)
    requires
        pixel_size_ok@.len() == args@.len(),
    ensures
        match r {
            Ok(o) => spec_parse_cli(arg_views(args@), pixel_size_ok@) == Ok::<
                OptionsView,
                Seq<char>,
            >(o@),
            Err(e) => spec_parse_cli(arg_views(args@), pixel_size_ok@) == Err::<
                OptionsView,
                Seq<char>,
            >(e.text()),
        },
{
    let ghost views = arg_views(args@);
    if args.len() < 3 {
        return Err(CliError::InvalidInput(owned(usage_string())));
    }
    assert(views[1] == args@[1]@);
    assert(views[2] == args@[2]@);
    let mut o = CliOptions {
        input_path: args[1].clone(),
        output_path: args[2].clone(),
        k_colors: None,
        preset_name: None,
        pixel_size: None,
        denoise: None,
        palette_source: None,
        palette_lock_path: None,
        palette_cleanup_mode: None,
        cell_color_mode: None,
        dither: None,
        color_space: None,
        cleanup_mode: None,
        repair_mode: None,
        debug_json: false,
        debug_overlay: false,
        debug_heatmap: false,
        debug_dir: None,
        review_pack_top: None,
        retry_review_top: None,
        recommend_variant: false,
    };
    assert(o@ == initial_options(views));
    let n = args.len();
    let mut i: usize = 3;
    while i < n
        invariant
            3 <= i <= n,
            n == args@.len(),
            pixel_size_ok@.len() == n,
            views == arg_views(args@),
            spec_parse_cli(views, pixel_size_ok@) == parse_from(views, pixel_size_ok@, i as int, o@),
        decreases n - i,
    {
        match step(args, pixel_size_ok, i, &mut o) {
            Ok(j) => {
                assert(i < j <= n);
                i = j;
            },
            Err(e) => {
                return Err(e);
            },
        }
    }
    Ok(o)
}

/// The usage text.
fn usage_string() -> (r: &'static str)
    ensures
        r@ == usage_text(),
{
    "Usage: nasty-retropixel-cli <input> <output> [k_colors] [--preset ai-sprite|strict-retro|tileset-cleanup|character-cleanup|icon-cleanup|ultra-cleanup|auto] [--pixel-size <n>] [--denoise off|box3] [--palette-source pixels|cells] [--palette-lock <palette.png>] [--palette-cleanup off|basic|strict] [--cell-color mean|dominant|medoid] [--dither off|fs] [--color-space srgb|linear] [--cleanup off|basic] [--repair off|basic|smart|ultra] [--recommend-variant] [--debug-json] [--debug-overlay] [--debug-heatmap] [--debug-dir <path>] [--review-pack-top <n>] [--retry-review-top <n>]\n\nNotes:\n- Use a file input + file output for single image.\n- Use a directory input + directory output for batch processing."
}

/// `fallback` unless `o` holds a value.
pub open spec fn or_else<T>(o: Option<T>, fallback: T) -> T {
    match o {
        Some(v) => v,
        None => fallback,
    }
}

/// `c` with the palette size and each mode that the command line gives.
pub open spec fn with_cli_overrides(c: Config, o: OptionsView) -> Config {
    Config {
        k_colors: or_else(o.k_colors, c.k_colors),
        prefilter_mode: or_else(o.denoise, c.prefilter_mode),
        palette_source: or_else(o.palette_source, c.palette_source),
        palette_cleanup_mode: or_else(o.palette_cleanup_mode, c.palette_cleanup_mode),
        cell_color_mode: or_else(o.cell_color_mode, c.cell_color_mode),
        dither_mode: or_else(o.dither, c.dither_mode),
        color_space: or_else(o.color_space, c.color_space),
        cleanup_mode: or_else(o.cleanup_mode, c.cleanup_mode),
        repair_mode: or_else(o.repair_mode, c.repair_mode),
    }
}

/// Sets the palette size and each mode that the command line gives.
pub fn apply_cli_overrides(config: &mut Config, o: &CliOptions)
    ensures
        *final(config) == with_cli_overrides(*old(config), o@),
{
    if let Some(k) = o.k_colors {
        config.k_colors = k;
    }
    if let Some(v) = o.denoise {
        config.prefilter_mode = v;
    }
    if let Some(v) = o.palette_source {
        config.palette_source = v;
    }
    if let Some(v) = o.palette_cleanup_mode {
        config.palette_cleanup_mode = v;
    }
    if let Some(v) = o.cell_color_mode {
        config.cell_color_mode = v;
    }
    if let Some(v) = o.dither {
        config.dither_mode = v;
    }
    if let Some(v) = o.color_space {
        config.color_space = v;
    }
    if let Some(v) = o.cleanup_mode {
        config.cleanup_mode = v;
    }
    if let Some(v) = o.repair_mode {
        config.repair_mode = v;
    }
}

/// Whether the command line asks for the preset to be chosen from the image.
pub open spec fn is_auto(o: OptionsView) -> bool {
    o.preset_name == Some("auto"@)
}

/// The settings of a run: the defaults, then the named preset (unless it is
/// `auto`), then what the command line gives; an unknown preset is refused.
pub open spec fn spec_configure(o: OptionsView) -> Result<Config, Seq<char>> {
    match o.preset_name {
        Some(p) => if p == "auto"@ {
            Ok(with_cli_overrides(default_config(), o))
        } else {
            match spec_preset_by_name(p) {
                Some(ps) => Ok(with_cli_overrides(with_preset(default_config(), ps), o)),
                None => Err(unknown_preset_text(p)),
            }
        },
        None => Ok(with_cli_overrides(default_config(), o)),
    }
}

/// Whether the command line asks for the preset to be chosen from the image.
pub fn wants_auto_preset(o: &CliOptions) -> (r: bool)
    ensures
        r == is_auto(o@),
{
    match &o.preset_name {
        Some(p) => str_eq(p.as_str(), "auto"),
        None => false,
    }
}

/// The settings of a run.
pub fn configure(o: &CliOptions) -> (r: Result<Config, CliError>)
    ensures
        match r {
            Ok(c) => spec_configure(o@) == Ok::<Config, Seq<char>>(c),
            Err(e) => spec_configure(o@) == Err::<Config, Seq<char>>(e.text()),
        },
{
    let mut config = Config::default();
    if let Some(p) = &o.preset_name {
        if !str_eq(p.as_str(), "auto") {
            match apply_named_preset(&mut config, p.as_str()) {
                Ok(()) => {},
                Err(e) => {
                    return Err(e);
                },
            }
        }
    }
    apply_cli_overrides(&mut config, o);
    Ok(config)
}

/// Which debug exports a run writes: JSON report, overlay, heatmap. Asking
/// for a review pack or a retry review turns all three on.
pub open spec fn spec_debug_exports(o: OptionsView) -> (bool, bool, bool) {
    if o.review_pack_top is Some || o.retry_review_top is Some {
        (true, true, true)
    } else {
        (o.debug_json, o.debug_overlay, o.debug_heatmap)
    }
}

/// Which debug exports a run writes.
pub fn debug_exports(o: &CliOptions) -> (r: (bool, bool, bool))
    ensures
        r == spec_debug_exports(o@),
{
    if o.review_pack_top.is_some() || o.retry_review_top.is_some() {
        (true, true, true)
    } else {
        (o.debug_json, o.debug_overlay, o.debug_heatmap)
    }
}

/// The setup that image analysis suggests: a preset and six modes (it says
/// nothing of dithering or color space).
#[derive(Clone, Copy, Debug, PartialEq, Eq, Structural)]
pub struct SuggestedSetup {
    pub prefilter_mode: u32,
    pub palette_source: u32,
    pub palette_cleanup_mode: u32,
    pub cell_color_mode: u32,
    pub cleanup_mode: u32,
    pub repair_mode: u32,
}

/// `c` with the six modes of a suggested setup.
pub open spec fn with_suggestion(c: Config, s: SuggestedSetup) -> Config {
    Config {
        prefilter_mode: s.prefilter_mode,
        palette_source: s.palette_source,
        palette_cleanup_mode: s.palette_cleanup_mode,
        cell_color_mode: s.cell_color_mode,
        cleanup_mode: s.cleanup_mode,
        repair_mode: s.repair_mode,
        ..c
    }
}

/// Applies a suggested setup: its preset, then its modes, then again what
/// the command line gives, which wins over the suggestion. An unknown preset
/// is refused and leaves `config` as it was.
pub fn apply_suggested_setup(
    config: &mut Config,
    preset_key: &str,
    suggestion: &SuggestedSetup,
    o: &CliOptions,
) -> (r: Result<(), CliError>)
    ensures
        match spec_preset_by_name(preset_key@) {
            Some(p) => r is Ok && *final(config) == with_cli_overrides(
                with_suggestion(with_preset(*old(config), p), *suggestion),
                o@,
            ),
            None => r matches Err(e) && e.text() == unknown_preset_text(preset_key@)
                && *final(config) == *old(config),
        },
{
    match apply_named_preset(config, preset_key) {
        Ok(()) => {},
        Err(e) => {
            return Err(e);
        },
    }
    config.prefilter_mode = suggestion.prefilter_mode;
    config.palette_source = suggestion.palette_source;
    config.palette_cleanup_mode = suggestion.palette_cleanup_mode;
    config.cell_color_mode = suggestion.cell_color_mode;
    config.cleanup_mode = suggestion.cleanup_mode;
    config.repair_mode = suggestion.repair_mode;
    apply_cli_overrides(config, o);
    Ok(())
}

/// Refuses `--recommend-variant` for an input that is not a file.
pub fn check_variant_input(o: &CliOptions, input_is_file: bool) -> (r: Result<(), CliError>)
    ensures
        r is Err <==> o.recommend_variant && !input_is_file,
        r matches Err(e) ==> e.text() == "--recommend-variant is supported only for single-file input"@,
{
    if o.recommend_variant && !input_is_file {
        Err(
            CliError::InvalidInput(
                owned("--recommend-variant is supported only for single-file input"),
            ),
        )
    } else {
        Ok(())
    }
}

/// Refuses the `auto` preset for a directory input.
pub fn check_batch_input(o: &CliOptions) -> (r: Result<(), CliError>)
    ensures
        r is Err <==> is_auto(o@),
        r matches Err(e) ==> e.text() == "--preset auto is currently supported only for single-file input"@,
{
    if wants_auto_preset(o) {
        Err(
            CliError::InvalidInput(
                owned("--preset auto is currently supported only for single-file input"),
            ),
        )
    } else {
        Ok(())
    }
}

/// Refuses review packs and retry reviews for a single-file input.
pub fn check_single_input(o: &CliOptions) -> (r: Result<(), CliError>)
    ensures
        r is Err <==> (o.review_pack_top is Some || o.retry_review_top is Some),
        r matches Err(e) ==> e.text() == "--review-pack-top e --retry-review-top sono supportati solo con input directory batch"@,
{
    if o.review_pack_top.is_some() || o.retry_review_top.is_some() {
        Err(
            CliError::InvalidInput(
                owned(
                    "--review-pack-top e --retry-review-top sono supportati solo con input directory batch",
                ),
            ),
        )
    } else {
        Ok(())
    }
}

/// Settings from the command line keep what it gives: the palette size and
/// every mode it names win over the preset; with no preset, what it does not
/// name stays at its default.
pub proof fn lemma_cli_settings_win(o: OptionsView)
    ensures
        spec_configure(o) matches Ok(c) ==> {
            &&& o.k_colors matches Some(k) ==> c.k_colors == k
            &&& o.denoise matches Some(v) ==> c.prefilter_mode == v
            &&& o.palette_source matches Some(v) ==> c.palette_source == v
            &&& o.palette_cleanup_mode matches Some(v) ==> c.palette_cleanup_mode == v
            &&& o.cell_color_mode matches Some(v) ==> c.cell_color_mode == v
            &&& o.dither matches Some(v) ==> c.dither_mode == v
            &&& o.color_space matches Some(v) ==> c.color_space == v
            &&& o.cleanup_mode matches Some(v) ==> c.cleanup_mode == v
            &&& o.repair_mode matches Some(v) ==> c.repair_mode == v
        },
        o.preset_name is None ==> spec_configure(o) == Ok::<Config, Seq<char>>(
            with_cli_overrides(default_config(), o),
        ),
{
}


/// The options apart from the preset name.
pub open spec fn without_preset(o: OptionsView) -> OptionsView {
    OptionsView { preset_name: None, ..o }
}

/// `--preset` is a flag that takes a text, and no other kind of flag.
proof fn lemma_preset_flag_kind()
    ensures
        is_text_flag("--preset"@),
        "--preset"@ != "--pixel-size"@,
        !is_choice_flag("--preset"@),
{
    reveal_strlit("--preset");
    reveal_strlit("--pixel-size");
    reveal_strlit("--denoise");
    reveal_strlit("--palette-source");
    reveal_strlit("--palette-cleanup");
    reveal_strlit("--cell-color");
    reveal_strlit("--dither");
    reveal_strlit("--color-space");
    reveal_strlit("--cleanup");
    reveal_strlit("--repair");
    assert("--preset"@.len() != "--pixel-size"@.len());
    assert("--preset"@.len() != "--denoise"@.len());
    assert("--preset"@.len() != "--palette-source"@.len());
    assert("--preset"@.len() != "--palette-cleanup"@.len());
    assert("--preset"@.len() != "--cell-color"@.len());
    assert("--preset"@[2] != "--dither"@[2]);
    assert("--preset"@.len() != "--color-space"@.len());
    assert("--preset"@.len() != "--cleanup"@.len());
    assert("--preset"@[2] != "--repair"@[2]);
}

/// Reading `--preset` and its value sets the preset name and nothing else.
proof fn lemma_preset_step(args: Seq<Seq<char>>, pixel_size_ok: Seq<bool>, i: int, o: OptionsView)
    requires
        0 <= i,
        i + 1 < args.len(),
        args[i] == "--preset"@,
    ensures
        parse_step(args, pixel_size_ok, i, o) == if is_blank(args[i + 1]) {
            Err::<(int, OptionsView), Seq<char>>("--preset"@ + " cannot be empty"@)
        } else {
            Ok::<(int, OptionsView), Seq<char>>(
                (i + 2, OptionsView { preset_name: Some(args[i + 1]), ..o }),
            )
        },
{
    lemma_preset_flag_kind();
}

/// Reading stops at the end of `front` as it would on `front` alone, when
/// `front` reads without a refusal from `i` on; what follows is then read
/// from there.
proof fn lemma_parse_prefix(
    front: Seq<Seq<char>>,
    front_ok: Seq<bool>,
    rest: Seq<Seq<char>>,
    rest_ok: Seq<bool>,
    i: int,
    o: OptionsView,
)
    requires
        0 <= i <= front.len(),
        front_ok.len() == front.len(),
        parse_from(front, front_ok, i, o) is Ok,
    ensures
        parse_from(front + rest, front_ok + rest_ok, i, o) == parse_from(
            front + rest,
            front_ok + rest_ok,
            front.len() as int,
            parse_from(front, front_ok, i, o)->Ok_0,
        ),
    decreases front.len() - i,
{
    if i < front.len() {
        let args = front + rest;
        let px = front_ok + rest_ok;
        assert(args[i] == front[i]);
        if i + 1 < front.len() {
            assert(args[i + 1] == front[i + 1]);
            assert(px[i + 1] == front_ok[i + 1]);
        }
        assert(parse_step(args, px, i, o) == parse_step(front, front_ok, i, o));
        if let Ok((j, next)) = parse_step(front, front_ok, i, o) {
            lemma_parse_prefix(front, front_ok, rest, rest_ok, j, next);
        }
    }
}

/// One argument read at two places, with the same value after it where it
/// takes one, from options that differ at most in the preset name: the same
/// step, to options that again differ at most in the preset name.
proof fn lemma_step_alike(
    a1: Seq<Seq<char>>,
    x1: Seq<bool>,
    i1: int,
    s1: OptionsView,
    a2: Seq<Seq<char>>,
    x2: Seq<bool>,
    i2: int,
    s2: OptionsView,
)
    requires
        0 <= i1 < a1.len(),
        0 <= i2 < a2.len(),
        a1[i1] == a2[i2],
        i1 + 1 < a1.len() ==> i2 + 1 < a2.len() && a1[i1 + 1] == a2[i2 + 1] && x1[i1 + 1] == x2[
            i2 + 1
        ],
        without_preset(s1) == without_preset(s2),
        parse_step(a1, x1, i1, s1) is Ok,
    ensures
        parse_step(a2, x2, i2, s2) is Ok,
        parse_step(a2, x2, i2, s2)->Ok_0.0 - i2 == parse_step(a1, x1, i1, s1)->Ok_0.0 - i1,
        i1 < parse_step(a1, x1, i1, s1)->Ok_0.0 <= a1.len(),
        i2 < parse_step(a2, x2, i2, s2)->Ok_0.0 <= a2.len(),
        without_preset(parse_step(a2, x2, i2, s2)->Ok_0.1) == without_preset(
            parse_step(a1, x1, i1, s1)->Ok_0.1,
        ),
{
    let a = a1[i1];
    if takes_value(a) {
        let v = a1[i1 + 1];
        if a == "--pixel-size"@ {
        } else if is_choice_flag(a) {
            let c = choice_code(a, v)->0;
            assert(without_preset(set_choice(s1, a, c)) == without_preset(set_choice(s2, a, c)));
        } else if is_text_flag(a) {
            assert(without_preset(set_text(s1, a, v)) == without_preset(set_text(s2, a, v)));
        } else {
            let n = parse_usize(v)->0 as usize;
            assert(without_preset(set_count(s1, a, n)) == without_preset(set_count(s2, a, n)));
        }
    } else if is_switch(a) {
        assert(without_preset(set_switch(s1, a)) == without_preset(set_switch(s2, a)));
    }
}

/// Reading the arguments after `--preset p` gives what reading them before
/// a final `--preset p` gives, up to the preset name, which the final one
/// sets.
proof fn lemma_parse_moved_preset(
    front: Seq<Seq<char>>,
    front_ok: Seq<bool>,
    back: Seq<Seq<char>>,
    back_ok: Seq<bool>,
    p: Seq<char>,
    p_ok: Seq<bool>,
    k: int,
    s1: OptionsView,
    s2: OptionsView,
)
    requires
        front_ok.len() == front.len(),
        back_ok.len() == back.len(),
        p_ok.len() == 2,
        0 <= k <= back.len(),
        !is_blank(p),
        without_preset(s1) == without_preset(s2),
        parse_from(
            front + seq!["--preset"@, p] + back,
            front_ok + p_ok + back_ok,
            front.len() + 2 + k,
            s1,
        ) is Ok,
    ensures
        parse_from(front + back + seq!["--preset"@, p], front_ok + back_ok + p_ok, front.len() + k, s2)
            == Ok::<OptionsView, Seq<char>>(
            OptionsView {
                preset_name: Some(p),
                ..parse_from(
                    front + seq!["--preset"@, p] + back,
                    front_ok + p_ok + back_ok,
                    front.len() + 2 + k,
                    s1,
                )->Ok_0
            },
        ),
    decreases back.len() - k,
{
    let a1 = front + seq!["--preset"@, p] + back;
    let x1 = front_ok + p_ok + back_ok;
    let a2 = front + back + seq!["--preset"@, p];
    let x2 = front_ok + back_ok + p_ok;
    let n = front.len() as int;
    let i1 = n + 2 + k;
    let i2 = n + k;
    if k == back.len() {
        assert(a2[i2] == "--preset"@);
        assert(a2[i2 + 1] == p);
        lemma_preset_step(a2, x2, i2, s2);
        assert(OptionsView { preset_name: Some(p), ..s2 } == OptionsView { preset_name: Some(p), ..s1 });
        assert(parse_from(a1, x1, i1, s1) == Ok::<OptionsView, Seq<char>>(s1));
        assert(parse_from(a2, x2, i2 + 2, OptionsView { preset_name: Some(p), ..s2 }) == Ok::<
            OptionsView,
            Seq<char>,
        >(OptionsView { preset_name: Some(p), ..s2 }));
    } else {
        assert(a1[i1] == back[k]);
        assert(a2[i2] == back[k]);
        if k + 1 < back.len() {
            assert(a1[i1 + 1] == back[k + 1]);
            assert(a2[i2 + 1] == back[k + 1]);
            assert(x1[i1 + 1] == back_ok[k + 1]);
            assert(x2[i2 + 1] == back_ok[k + 1]);
        }
        if let Ok((j1, next1)) = parse_step(a1, x1, i1, s1) {
            lemma_step_alike(a1, x1, i1, s1, a2, x2, i2, s2);
            let (j2, next2) = parse_step(a2, x2, i2, s2)->Ok_0;
            assert(parse_from(a1, x1, i1, s1) == parse_from(a1, x1, j1, next1));
            assert(parse_from(a2, x2, i2, s2) == parse_from(a2, x2, j2, next2));
            lemma_parse_moved_preset(front, front_ok, back, back_ok, p, p_ok, j1 - n - 2, next1, next2);
        }
    }
}

/// Where `--preset p` stands among the other arguments does not matter:
/// read at any place where a flag can stand (after arguments `front` that
/// read without a refusal), it gives the options that it gives at the end,
/// up to a later `--preset` among `back`, which the one at the end
/// replaces. With no other preset among `back`, the options are the same.
pub proof fn lemma_preset_position_free(
    front: Seq<Seq<char>>,
    front_ok: Seq<bool>,
    back: Seq<Seq<char>>,
    back_ok: Seq<bool>,
    p: Seq<char>,
    p_ok: Seq<bool>,
)
    requires
        front.len() >= 3,
        front_ok.len() == front.len(),
        back_ok.len() == back.len(),
        p_ok.len() == 2,
        spec_parse_cli(front, front_ok) is Ok,
        spec_parse_cli(front + seq!["--preset"@, p] + back, front_ok + p_ok + back_ok) is Ok,
    ensures
        spec_parse_cli(front + back + seq!["--preset"@, p], front_ok + back_ok + p_ok) == Ok::<
            OptionsView,
            Seq<char>,
        >(
            OptionsView {
                preset_name: Some(p),
                ..spec_parse_cli(front + seq!["--preset"@, p] + back, front_ok + p_ok + back_ok)->Ok_0
            },
        ),
        spec_parse_cli(front + seq!["--preset"@, p] + back, front_ok + p_ok + back_ok)->Ok_0.preset_name
            == Some(p) ==> spec_parse_cli(front + back + seq!["--preset"@, p], front_ok + back_ok + p_ok)
            == spec_parse_cli(front + seq!["--preset"@, p] + back, front_ok + p_ok + back_ok),
{
    let pair = seq!["--preset"@, p];
    let a1 = front + pair + back;
    let x1 = front_ok + p_ok + back_ok;
    let a2 = front + back + pair;
    let x2 = front_ok + back_ok + p_ok;
    let n = front.len() as int;
    assert(a1 =~= front + (pair + back));
    assert(x1 =~= front_ok + (p_ok + back_ok));
    assert(a2 =~= front + (back + pair));
    assert(x2 =~= front_ok + (back_ok + p_ok));
    assert(initial_options(a1) == initial_options(front));
    assert(initial_options(a2) == initial_options(front));
    let init = initial_options(front);
    let of = parse_from(front, front_ok, 3, init)->Ok_0;
    lemma_parse_prefix(front, front_ok, pair + back, p_ok + back_ok, 3, init);
    lemma_parse_prefix(front, front_ok, back + pair, back_ok + p_ok, 3, init);
    assert(a1[n] == "--preset"@);
    assert(a1[n + 1] == p);
    lemma_preset_step(a1, x1, n, of);
    lemma_parse_moved_preset(
        front,
        front_ok,
        back,
        back_ok,
        p,
        p_ok,
        0,
        OptionsView { preset_name: Some(p), ..of },
        of,
    );
}

/// With a known preset other than `auto`, each setting that the command
/// line gives wins, and every other one is the preset's.
pub proof fn lemma_preset_fills_the_rest(o: OptionsView, name: Seq<char>, ps: PresetSpec)
    requires
        o.preset_name == Some(name),
        name != "auto"@,
        spec_preset_by_name(name) == Some(ps),
    ensures
        spec_configure(o) == Ok::<Config, Seq<char>>(
            Config {
                k_colors: or_else(o.k_colors, ps.k_colors),
                prefilter_mode: or_else(o.denoise, ps.modes.denoise),
                palette_source: or_else(o.palette_source, ps.modes.palette_source),
                palette_cleanup_mode: or_else(o.palette_cleanup_mode, ps.modes.palette_cleanup_mode),
                cell_color_mode: or_else(o.cell_color_mode, ps.modes.cell_color_mode),
                dither_mode: or_else(o.dither, ps.modes.dither_mode),
                color_space: or_else(o.color_space, ps.modes.color_space),
                cleanup_mode: or_else(o.cleanup_mode, ps.modes.cleanup_mode),
                repair_mode: or_else(o.repair_mode, ps.modes.repair_mode),
            },
        ),
{
}

/// The lengths and a telling character of the choice flags and of the
/// values they take, enough to tell any two of them apart.
proof fn lemma_choice_spellings()
    ensures
        "--denoise"@.len() == 9,
        "--denoise"@[2] == 'd',
        "--palette-source"@.len() == 16,
        "--palette-source"@[2] == 'p',
        "--palette-cleanup"@.len() == 17,
        "--palette-cleanup"@[2] == 'p',
        "--cell-color"@.len() == 12,
        "--cell-color"@[2] == 'c',
        "--dither"@.len() == 8,
        "--dither"@[2] == 'd',
        "--color-space"@.len() == 13,
        "--color-space"@[2] == 'c',
        "--cleanup"@.len() == 9,
        "--cleanup"@[2] == 'c',
        "--repair"@.len() == 8,
        "--repair"@[2] == 'r',
        "--pixel-size"@.len() == 12,
        "--pixel-size"@[2] == 'p',
        "--preset"@.len() == 8,
        "--preset"@[2] == 'p',
        "off"@.len() == 3,
        "off"@[0] == 'o',
        "box3"@.len() == 4,
        "box3"@[0] == 'b',
        "pixels"@.len() == 6,
        "pixels"@[0] == 'p',
        "cells"@.len() == 5,
        "cells"@[0] == 'c',
        "basic"@.len() == 5,
        "basic"@[0] == 'b',
        "strict"@.len() == 6,
        "strict"@[0] == 's',
        "mean"@.len() == 4,
        "mean"@[0] == 'm',
        "dominant"@.len() == 8,
        "dominant"@[0] == 'd',
        "medoid"@.len() == 6,
        "medoid"@[0] == 'm',
        "fs"@.len() == 2,
        "fs"@[0] == 'f',
        "srgb"@.len() == 4,
        "srgb"@[0] == 's',
        "linear"@.len() == 6,
        "linear"@[0] == 'l',
        "smart"@.len() == 5,
        "smart"@[0] == 's',
        "ultra"@.len() == 5,
        "ultra"@[0] == 'u',
{
    reveal_strlit("--denoise");
    reveal_strlit("--palette-source");
    reveal_strlit("--palette-cleanup");
    reveal_strlit("--cell-color");
    reveal_strlit("--dither");
    reveal_strlit("--color-space");
    reveal_strlit("--cleanup");
    reveal_strlit("--repair");
    reveal_strlit("--pixel-size");
    reveal_strlit("--preset");
    reveal_strlit("off");
    reveal_strlit("box3");
    reveal_strlit("pixels");
    reveal_strlit("cells");
    reveal_strlit("basic");
    reveal_strlit("strict");
    reveal_strlit("mean");
    reveal_strlit("dominant");
    reveal_strlit("medoid");
    reveal_strlit("fs");
    reveal_strlit("srgb");
    reveal_strlit("linear");
    reveal_strlit("smart");
    reveal_strlit("ultra");
}

/// Every value that the usage text lists for a choice flag names its own
/// mode: the label of each mode reads as that mode, and a value that is not
/// a label is refused. So `--color-space srgb` is sRGB (0) and
/// `--color-space linear` is linear (1), and likewise for the other flags.
pub proof fn lemma_choice_values_name_modes(v: Seq<char>, m: u32)
    ensures
        m <= 1 ==> choice_code("--denoise"@, prefilter_mode_label(m)) == Some(m),
        m <= 1 ==> choice_code("--palette-source"@, palette_source_label(m)) == Some(m),
        m <= 2 ==> choice_code("--palette-cleanup"@, palette_cleanup_mode_label(m)) == Some(m),
        m <= 2 ==> choice_code("--cell-color"@, cell_color_mode_label(m)) == Some(m),
        m <= 1 ==> choice_code("--dither"@, dither_mode_label(m)) == Some(m),
        m <= 1 ==> choice_code("--color-space"@, color_space_label(m)) == Some(m),
        m <= 1 ==> choice_code("--cleanup"@, cleanup_mode_label(m)) == Some(m),
        m <= 3 ==> choice_code("--repair"@, repair_mode_label(m)) == Some(m),
        choice_code("--denoise"@, v) matches Some(c) ==> c <= 1 && v == prefilter_mode_label(c),
        choice_code("--palette-source"@, v) matches Some(c) ==> c <= 1 && v == palette_source_label(c),
        choice_code("--palette-cleanup"@, v) matches Some(c) ==> c <= 2 && v
            == palette_cleanup_mode_label(c),
        choice_code("--cell-color"@, v) matches Some(c) ==> c <= 2 && v == cell_color_mode_label(c),
        choice_code("--dither"@, v) matches Some(c) ==> c <= 1 && v == dither_mode_label(c),
        choice_code("--color-space"@, v) matches Some(c) ==> c <= 1 && v == color_space_label(c),
        choice_code("--cleanup"@, v) matches Some(c) ==> c <= 1 && v == cleanup_mode_label(c),
        choice_code("--repair"@, v) matches Some(c) ==> c <= 3 && v == repair_mode_label(c),
        choice_code("--denoise"@, "off"@) == Some(0u32),
        choice_code("--denoise"@, "box3"@) == Some(1u32),
        choice_code("--palette-source"@, "pixels"@) == Some(0u32),
        choice_code("--palette-source"@, "cells"@) == Some(1u32),
        choice_code("--palette-cleanup"@, "off"@) == Some(0u32),
        choice_code("--palette-cleanup"@, "basic"@) == Some(1u32),
        choice_code("--palette-cleanup"@, "strict"@) == Some(2u32),
        choice_code("--cell-color"@, "mean"@) == Some(0u32),
        choice_code("--cell-color"@, "dominant"@) == Some(1u32),
        choice_code("--cell-color"@, "medoid"@) == Some(2u32),
        choice_code("--dither"@, "off"@) == Some(0u32),
        choice_code("--dither"@, "fs"@) == Some(1u32),
        choice_code("--color-space"@, "srgb"@) == Some(0u32),
        choice_code("--color-space"@, "linear"@) == Some(1u32),
        choice_code("--cleanup"@, "off"@) == Some(0u32),
        choice_code("--cleanup"@, "basic"@) == Some(1u32),
        choice_code("--repair"@, "off"@) == Some(0u32),
        choice_code("--repair"@, "basic"@) == Some(1u32),
        choice_code("--repair"@, "smart"@) == Some(2u32),
        choice_code("--repair"@, "ultra"@) == Some(3u32),
{
    lemma_choice_spellings();
}

/// Reading a choice flag followed by the label of a mode sets that flag's
/// own setting to the mode and changes nothing else.
pub proof fn lemma_choice_flag_sets_its_mode(
    args: Seq<Seq<char>>,
    pixel_size_ok: Seq<bool>,
    i: int,
    o: OptionsView,
    m: u32,
)
    requires
        0 <= i,
        i + 1 < args.len(),
    ensures
        args[i] == "--denoise"@ && args[i + 1] == prefilter_mode_label(m) && m <= 1 ==> parse_step(
            args,
            pixel_size_ok,
            i,
            o,
        ) == Ok::<(int, OptionsView), Seq<char>>((i + 2, OptionsView { denoise: Some(m), ..o })),
        args[i] == "--palette-source"@ && args[i + 1] == palette_source_label(m) && m <= 1
            ==> parse_step(args, pixel_size_ok, i, o) == Ok::<(int, OptionsView), Seq<char>>(
            (i + 2, OptionsView { palette_source: Some(m), ..o }),
        ),
        args[i] == "--palette-cleanup"@ && args[i + 1] == palette_cleanup_mode_label(m) && m <= 2
            ==> parse_step(args, pixel_size_ok, i, o) == Ok::<(int, OptionsView), Seq<char>>(
            (i + 2, OptionsView { palette_cleanup_mode: Some(m), ..o }),
        ),
        args[i] == "--cell-color"@ && args[i + 1] == cell_color_mode_label(m) && m <= 2
            ==> parse_step(args, pixel_size_ok, i, o) == Ok::<(int, OptionsView), Seq<char>>(
            (i + 2, OptionsView { cell_color_mode: Some(m), ..o }),
        ),
        args[i] == "--dither"@ && args[i + 1] == dither_mode_label(m) && m <= 1 ==> parse_step(
            args,
            pixel_size_ok,
            i,
            o,
        ) == Ok::<(int, OptionsView), Seq<char>>((i + 2, OptionsView { dither: Some(m), ..o })),
        args[i] == "--color-space"@ && args[i + 1] == color_space_label(m) && m <= 1
            ==> parse_step(args, pixel_size_ok, i, o) == Ok::<(int, OptionsView), Seq<char>>(
            (i + 2, OptionsView { color_space: Some(m), ..o }),
        ),
        args[i] == "--cleanup"@ && args[i + 1] == cleanup_mode_label(m) && m <= 1 ==> parse_step(
            args,
            pixel_size_ok,
            i,
            o,
        ) == Ok::<(int, OptionsView), Seq<char>>((i + 2, OptionsView { cleanup_mode: Some(m), ..o })),
        args[i] == "--repair"@ && args[i + 1] == repair_mode_label(m) && m <= 3 ==> parse_step(
            args,
            pixel_size_ok,
            i,
            o,
        ) == Ok::<(int, OptionsView), Seq<char>>((i + 2, OptionsView { repair_mode: Some(m), ..o })),
{
    lemma_choice_values_name_modes(args[i + 1], m);
    lemma_choice_spellings();
}

/// Asking for a review pack or for a retry review, either alone, turns all
/// three debug exports on; with neither, each export is on exactly when its
/// own flag asks for it.
pub proof fn lemma_reviews_turn_on_all_exports(o: OptionsView)
    ensures
        o.review_pack_top is Some ==> spec_debug_exports(o) == (true, true, true),
        o.retry_review_top is Some ==> spec_debug_exports(o) == (true, true, true),
        o.review_pack_top is None && o.retry_review_top is None ==> spec_debug_exports(o) == (
            o.debug_json,
            o.debug_overlay,
            o.debug_heatmap,
        ),
{
}

/// The spellings of the other flags, enough to tell every flag apart, and
/// that every flag starts with `--`.
proof fn lemma_flag_spellings()
    ensures
        "--review-pack-top"@.len() == 17,
        "--review-pack-top"@[2] == 'r',
        "--review-pack-top"@[8] == '-',
        "--retry-review-top"@.len() == 18,
        "--retry-review-top"@[2] == 'r',
        "--retry-review-top"@[8] == 'r',
        "--debug-json"@.len() == 12,
        "--debug-json"@[2] == 'd',
        "--debug-json"@[8] == 'j',
        "--debug-overlay"@.len() == 15,
        "--debug-overlay"@[2] == 'd',
        "--debug-overlay"@[8] == 'o',
        "--debug-heatmap"@.len() == 15,
        "--debug-heatmap"@[2] == 'd',
        "--debug-heatmap"@[8] == 'h',
        "--recommend-variant"@.len() == 19,
        "--recommend-variant"@[2] == 'r',
        "--recommend-variant"@[8] == 'e',
        "--palette-lock"@.len() == 14,
        "--palette-lock"@[2] == 'p',
        "--palette-lock"@[8] == 'e',
        "--debug-dir"@.len() == 11,
        "--debug-dir"@[2] == 'd',
        "--debug-dir"@[8] == 'd',
        "--denoise"@[0] == '-' && "--denoise"@[1] == '-',
        "--palette-source"@[0] == '-' && "--palette-source"@[1] == '-',
        "--palette-cleanup"@[0] == '-' && "--palette-cleanup"@[1] == '-',
        "--cell-color"@[0] == '-' && "--cell-color"@[1] == '-',
        "--dither"@[0] == '-' && "--dither"@[1] == '-',
        "--color-space"@[0] == '-' && "--color-space"@[1] == '-',
        "--cleanup"@[0] == '-' && "--cleanup"@[1] == '-',
        "--repair"@[0] == '-' && "--repair"@[1] == '-',
        "--pixel-size"@[0] == '-' && "--pixel-size"@[1] == '-',
        "--preset"@[0] == '-' && "--preset"@[1] == '-',
        "--review-pack-top"@[0] == '-' && "--review-pack-top"@[1] == '-',
        "--retry-review-top"@[0] == '-' && "--retry-review-top"@[1] == '-',
        "--debug-json"@[0] == '-' && "--debug-json"@[1] == '-',
        "--debug-overlay"@[0] == '-' && "--debug-overlay"@[1] == '-',
        "--debug-heatmap"@[0] == '-' && "--debug-heatmap"@[1] == '-',
        "--recommend-variant"@[0] == '-' && "--recommend-variant"@[1] == '-',
        "--palette-lock"@[0] == '-' && "--palette-lock"@[1] == '-',
        "--debug-dir"@[0] == '-' && "--debug-dir"@[1] == '-',
        "--denoise"@[8] == 'e',
        "--palette-source"@[8] == 'e',
        "--palette-cleanup"@[8] == 'e',
        "--cell-color"@[8] == 'o',
        "--color-space"@[8] == 's',
        "--cleanup"@[8] == 'p',
        "--pixel-size"@[8] == 's',
        "--"@.len() == 2 && "--"@[0] == '-' && "--"@[1] == '-',
{
    lemma_choice_spellings();
    reveal_strlit("--denoise");
    reveal_strlit("--palette-source");
    reveal_strlit("--palette-cleanup");
    reveal_strlit("--cell-color");
    reveal_strlit("--dither");
    reveal_strlit("--color-space");
    reveal_strlit("--cleanup");
    reveal_strlit("--repair");
    reveal_strlit("--pixel-size");
    reveal_strlit("--preset");
    reveal_strlit("--review-pack-top");
    reveal_strlit("--retry-review-top");
    reveal_strlit("--debug-json");
    reveal_strlit("--debug-overlay");
    reveal_strlit("--debug-heatmap");
    reveal_strlit("--recommend-variant");
    reveal_strlit("--palette-lock");
    reveal_strlit("--debug-dir");
    reveal_strlit("--");
}

/// Reading each flag that is not a choice sets its own option and nothing
/// else: a positive count for a count flag, the switch's own setting, the
/// text of a text flag that is not blank, the pixel size when it reads as a
/// positive number (and a refusal otherwise), and a positive number that is
/// not a flag sets the palette size.
pub proof fn lemma_flag_sets_its_option(
    args: Seq<Seq<char>>,
    pixel_size_ok: Seq<bool>,
    i: int,
    o: OptionsView,
)
    requires
        0 <= i < args.len(),
        pixel_size_ok.len() == args.len(),
    ensures
        ({
            let a = args[i];
            let step = parse_step(args, pixel_size_ok, i, o);
            &&& i + 1 < args.len() && a == "--review-pack-top"@ ==> (parse_usize(args[i + 1]) matches Some(n)
                ==> n > 0 ==> step == Ok::<(int, OptionsView), Seq<char>>(
                (i + 2, OptionsView { review_pack_top: Some(n as usize), ..o }),
            ))
            &&& i + 1 < args.len() && a == "--retry-review-top"@ ==> (parse_usize(args[i + 1]) matches Some(n)
                ==> n > 0 ==> step == Ok::<(int, OptionsView), Seq<char>>(
                (i + 2, OptionsView { retry_review_top: Some(n as usize), ..o }),
            ))
            &&& a == "--debug-json"@ ==> step == Ok::<(int, OptionsView), Seq<char>>(
                (i + 1, OptionsView { debug_json: true, ..o }),
            )
            &&& a == "--debug-overlay"@ ==> step == Ok::<(int, OptionsView), Seq<char>>(
                (i + 1, OptionsView { debug_overlay: true, ..o }),
            )
            &&& a == "--debug-heatmap"@ ==> step == Ok::<(int, OptionsView), Seq<char>>(
                (i + 1, OptionsView { debug_heatmap: true, ..o }),
            )
            &&& a == "--recommend-variant"@ ==> step == Ok::<(int, OptionsView), Seq<char>>(
                (i + 1, OptionsView { recommend_variant: true, ..o }),
            )
            &&& i + 1 < args.len() && a == "--palette-lock"@ && !is_blank(args[i + 1]) ==> step
                == Ok::<(int, OptionsView), Seq<char>>(
                (i + 2, OptionsView { palette_lock_path: Some(args[i + 1]), ..o }),
            )
            &&& i + 1 < args.len() && a == "--debug-dir"@ && !is_blank(args[i + 1]) ==> step
                == Ok::<(int, OptionsView), Seq<char>>(
                (i + 2, OptionsView { debug_dir: Some(args[i + 1]), ..o }),
            )
            &&& i + 1 < args.len() && a == "--pixel-size"@ ==> step == if pixel_size_ok[i + 1] {
                Ok::<(int, OptionsView), Seq<char>>(
                    (i + 2, OptionsView { pixel_size: Some(args[i + 1]), ..o }),
                )
            } else {
                Err::<(int, OptionsView), Seq<char>>(invalid_value_text(a, args[i + 1]))
            }
            &&& !starts_with(a, "--"@) ==> (parse_usize(a) matches Some(k) ==> k > 0 ==> step == Ok::<
                (int, OptionsView),
                Seq<char>,
            >((i + 1, OptionsView { k_colors: Some(k as usize), ..o })))
        }),
{
    lemma_choice_spellings();
    lemma_flag_spellings();
    let a = args[i];
    if !starts_with(a, "--"@) {
        if takes_value(a) || is_switch(a) {
            assert("--denoise"@.take(2) =~= "--"@);
            assert("--palette-source"@.take(2) =~= "--"@);
            assert("--palette-cleanup"@.take(2) =~= "--"@);
            assert("--cell-color"@.take(2) =~= "--"@);
            assert("--dither"@.take(2) =~= "--"@);
            assert("--color-space"@.take(2) =~= "--"@);
            assert("--cleanup"@.take(2) =~= "--"@);
            assert("--repair"@.take(2) =~= "--"@);
            assert("--pixel-size"@.take(2) =~= "--"@);
            assert("--preset"@.take(2) =~= "--"@);
            assert("--review-pack-top"@.take(2) =~= "--"@);
            assert("--retry-review-top"@.take(2) =~= "--"@);
            assert("--debug-json"@.take(2) =~= "--"@);
            assert("--debug-overlay"@.take(2) =~= "--"@);
            assert("--debug-heatmap"@.take(2) =~= "--"@);
            assert("--recommend-variant"@.take(2) =~= "--"@);
            assert("--palette-lock"@.take(2) =~= "--"@);
            assert("--debug-dir"@.take(2) =~= "--"@);
        }
        assert(!takes_value(a) && !is_switch(a));
    }
}

} // verus!
