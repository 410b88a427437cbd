use vstd::prelude::*;

verus! {

/// Color pipeline or black-and-white pipeline.
#[derive(Clone, Copy, Debug, PartialEq, Eq, Structural)]
pub enum ColorMode {
    Color,
    Binary,
}

/// Path simplification performed by the curve fitter.
#[derive(Clone, Copy, Debug, PartialEq, Eq, Structural)]
pub enum SimplifyMode {
    /// No simplification: pixel-exact outlines.
    Pixel,
    Polygon,
    Spline,
}

/// How nested color layers are turned into shapes.
#[derive(Clone, Copy, Debug, PartialEq, Eq, Structural)]
pub enum Hierarchical {
    Stacked,
    Cutout,
}

/// Named starting points for the configuration.
#[derive(Clone, Copy, Debug, PartialEq, Eq, Structural)]
pub enum Preset {
    Bw,
    Poster,
    Photo,
}

/// An option string that names no accepted value; each variant holds the offending string.
#[derive(Clone, Debug)]
pub enum ValidationError {
    UnknownPreset(String),
    UnknownColorMode(String),
    UnknownMode(String),
    UnknownHierarchical(String),
}

/// Resolved tracing configuration (angles in degrees). The segment-length threshold, a
/// fractional value, is kept by the caller beside it.
#[derive(Clone, Copy, Debug, PartialEq, Eq, Structural)]
pub struct TracingConfig {
    pub color_mode: ColorMode,
    pub hierarchical: Hierarchical,
    pub filter_speckle: usize,
    pub color_precision: i32,
    pub layer_difference: i32,
    pub mode: SimplifyMode,
    pub corner_threshold: i32,
    pub max_iterations: usize,
    pub splice_threshold: i32,
    pub path_precision: Option<u32>,
}

/// Explicit per-call overrides; `None` keeps the value of the starting configuration.
#[derive(Clone, Debug)]
pub struct TracingOverrides {
    pub color_mode: Option<String>,
    pub filter_speckle: Option<usize>,
    pub color_precision: Option<i32>,
    pub gradient_step: Option<i32>,
    pub corner_threshold: Option<i32>,
    pub splice_threshold: Option<i32>,
    pub mode: Option<String>,
    pub hierarchical: Option<String>,
    pub path_precision: Option<u32>,
}

/// The preset that an option string names, if any.
pub open spec fn preset_of(s: Seq<char>) -> Option<Preset> {
    if s == "bw"@ {
        Some(Preset::Bw)
    } else if s == "poster"@ {
        Some(Preset::Poster)
    } else if s == "photo"@ {
        Some(Preset::Photo)
    } else {
        None
    }
}

/// The color mode that an option string names, if any (`"bw"` and `"binary"` alike).
pub open spec fn color_mode_of(s: Seq<char>) -> Option<ColorMode> {
    if s == "color"@ {
        Some(ColorMode::Color)
    } else if s == "bw"@ || s == "binary"@ {
        Some(ColorMode::Binary)
    } else {
        None
    }
}

/// The simplification mode that an option string names, if any (`"pixel"` and `"none"` alike).
pub open spec fn simplify_mode_of(s: Seq<char>) -> Option<SimplifyMode> {
    if s == "pixel"@ || s == "none"@ {
        Some(SimplifyMode::Pixel)
    } else if s == "polygon"@ {
        Some(SimplifyMode::Polygon)
    } else if s == "spline"@ {
        Some(SimplifyMode::Spline)
    } else {
        None
    }
}

/// The hierarchical strategy that an option string names, if any.
pub open spec fn hierarchical_of(s: Seq<char>) -> Option<Hierarchical> {
    if s == "stacked"@ {
        Some(Hierarchical::Stacked)
    } else if s == "cutout"@ {
        Some(Hierarchical::Cutout)
    } else {
        None
    }
}

/// Human-readable text of a validation failure; it names the accepted values.
pub open spec fn validation_message(e: ValidationError) -> Seq<char> {
    match e {
        ValidationError::UnknownPreset(s) => "Unknown preset: '"@ + s@
            + "'. Use 'bw', 'poster', or 'photo'."@,
        ValidationError::UnknownColorMode(s) => "Unknown colormode: '"@ + s@
            + "'. Use 'color' or 'bw'."@,
        ValidationError::UnknownMode(s) => "Unknown mode: '"@ + s@
            + "'. Use 'pixel', 'polygon', or 'spline'."@,
        ValidationError::UnknownHierarchical(s) => "Unknown hierarchical: '"@ + s@
            + "'. Use 'stacked' or 'cutout'."@,
    }
}

fn quoted_message(head: &str, s: &String, tail: &str) -> (m: String)
    ensures
        m@ == head@ + s@ + tail@,
{
    String::from_str(head).concat(s.as_str()).concat(tail)
}

impl ValidationError {
    /// The failure as text, naming the accepted values.
    pub fn message(&self) -> (m: String)
        ensures
            m@ == validation_message(*self),
    {
        match self {
            ValidationError::UnknownPreset(s) => quoted_message(
                "Unknown preset: '",
                s,
                "'. Use 'bw', 'poster', or 'photo'.",
            ),
            ValidationError::UnknownColorMode(s) => quoted_message(
                "Unknown colormode: '",
                s,
                "'. Use 'color' or 'bw'.",
            ),
            ValidationError::UnknownMode(s) => quoted_message(
                "Unknown mode: '",
                s,
                "'. Use 'pixel', 'polygon', or 'spline'.",
            ),
            ValidationError::UnknownHierarchical(s) => quoted_message(
                "Unknown hierarchical: '",
                s,
                "'. Use 'stacked' or 'cutout'.",
            ),
        }
    }
}

fn same_text(s: &String, lit: &str) -> (r: bool)
    ensures
        r == (s@ == lit@),
{
    let l = String::from_str(lit);
    s.eq(&l)
}

/// Reads a preset name; any other string is a validation failure that holds it.
pub fn parse_preset(s: &String) -> (r: Result<Preset, ValidationError>)
    ensures
        r == match preset_of(s@) {
            Some(p) => Ok::<Preset, ValidationError>(p),
            None => Err(ValidationError::UnknownPreset(*s)),
        },
{
    if same_text(s, "bw") {
        Ok(Preset::Bw)
    } else if same_text(s, "poster") {
        Ok(Preset::Poster)
    } else if same_text(s, "photo") {
        Ok(Preset::Photo)
    } else {
        Err(ValidationError::UnknownPreset(s.clone()))
    }
}

/// Reads a color mode; any other string is a validation failure that holds it.
pub fn parse_color_mode(s: &String) -> (r: Result<ColorMode, ValidationError>)
    ensures
        r == match color_mode_of(s@) {
            Some(m) => Ok::<ColorMode, ValidationError>(m),
            None => Err(ValidationError::UnknownColorMode(*s)),
        },
{
    if same_text(s, "color") {
        Ok(ColorMode::Color)
    } else if same_text(s, "bw") || same_text(s, "binary") {
        Ok(ColorMode::Binary)
    } else {
        Err(ValidationError::UnknownColorMode(s.clone()))
    }
}

/// Reads a simplification mode; any other string is a validation failure that holds it.
pub fn parse_simplify_mode(s: &String) -> (r: Result<SimplifyMode, ValidationError>)
    ensures
        r == match simplify_mode_of(s@) {
            Some(m) => Ok::<SimplifyMode, ValidationError>(m),
            None => Err(ValidationError::UnknownMode(*s)),
        },
{
    if same_text(s, "pixel") || same_text(s, "none") {
        Ok(SimplifyMode::Pixel)
    } else if same_text(s, "polygon") {
        Ok(SimplifyMode::Polygon)
    } else if same_text(s, "spline") {
        Ok(SimplifyMode::Spline)
    } else {
        Err(ValidationError::UnknownMode(s.clone()))
    }
}

/// Reads a hierarchical strategy; any other string is a validation failure that holds it.
pub fn parse_hierarchical(s: &String) -> (r: Result<Hierarchical, ValidationError>)
    ensures
        r == match hierarchical_of(s@) {
            Some(h) => Ok::<Hierarchical, ValidationError>(h),
            None => Err(ValidationError::UnknownHierarchical(*s)),
        },
{
    if same_text(s, "stacked") {
        Ok(Hierarchical::Stacked)
    } else if same_text(s, "cutout") {
        Ok(Hierarchical::Cutout)
    } else {
        Err(ValidationError::UnknownHierarchical(s.clone()))
    }
}

/// Value of an optional override, or the current value when none is given.
pub open spec fn or_keep<T>(o: Option<T>, v: T) -> T {
    match o {
        Some(x) => x,
        None => v,
    }
}

/// `base` with every supplied override applied. String overrides are checked in the order
/// color mode, simplification mode, hierarchical strategy; the first that names no accepted
/// value is the failure. Numeric overrides are taken as they are.
pub open spec fn apply_overrides(base: TracingConfig, ov: TracingOverrides) -> Result<
    TracingConfig,
    ValidationError,
> {
    if ov.color_mode is Some && color_mode_of(ov.color_mode->0@) is None {
        Err(ValidationError::UnknownColorMode(ov.color_mode->0))
    } else if ov.mode is Some && simplify_mode_of(ov.mode->0@) is None {
        Err(ValidationError::UnknownMode(ov.mode->0))
    } else if ov.hierarchical is Some && hierarchical_of(ov.hierarchical->0@) is None {
        Err(ValidationError::UnknownHierarchical(ov.hierarchical->0))
    } else {
        Ok(
            TracingConfig {
                color_mode: if ov.color_mode is Some {
                    color_mode_of(ov.color_mode->0@)->0
                } else {
                    base.color_mode
                },
                hierarchical: if ov.hierarchical is Some {
                    hierarchical_of(ov.hierarchical->0@)->0
                } else {
                    base.hierarchical
                },
                filter_speckle: or_keep(ov.filter_speckle, base.filter_speckle),
                color_precision: or_keep(ov.color_precision, base.color_precision),
                layer_difference: or_keep(ov.gradient_step, base.layer_difference),
                mode: if ov.mode is Some {
                    simplify_mode_of(ov.mode->0@)->0
                } else {
                    base.mode
                },
                corner_threshold: or_keep(ov.corner_threshold, base.corner_threshold),
                max_iterations: base.max_iterations,
                splice_threshold: or_keep(ov.splice_threshold, base.splice_threshold),
                path_precision: if ov.path_precision is Some {
                    ov.path_precision
                } else {
                    base.path_precision
                },
            },
        )
    }
}

/// Applies the explicit overrides to a starting configuration, validating string values.
pub fn resolve_config(base: TracingConfig, ov: &TracingOverrides) -> (r: Result<
    TracingConfig,
    ValidationError,
>)
    ensures
        r == apply_overrides(base, *ov),
{
    let color_mode = match &ov.color_mode {
        Some(s) => parse_color_mode(s)?,
        None => base.color_mode,
    };
    let mode = match &ov.mode {
        Some(s) => parse_simplify_mode(s)?,
        None => base.mode,
    };
    let hierarchical = match &ov.hierarchical {
        Some(s) => parse_hierarchical(s)?,
        None => base.hierarchical,
    };
    let mut c = base;
    c.color_mode = color_mode;
    c.mode = mode;
    c.hierarchical = hierarchical;
    if let Some(v) = ov.filter_speckle {
        c.filter_speckle = v;
    }
    if let Some(v) = ov.color_precision {
        c.color_precision = v;
    }
    if let Some(v) = ov.gradient_step {
        c.layer_difference = v;
    }
    if let Some(v) = ov.corner_threshold {
        c.corner_threshold = v;
    }
    if let Some(v) = ov.splice_threshold {
        c.splice_threshold = v;
    }
    if let Some(v) = ov.path_precision {
        c.path_precision = Some(v);
    }
    Ok(c)
}

} // verus!
