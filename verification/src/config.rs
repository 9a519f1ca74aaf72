//! The configuration document of record, the sparse update request that
//! mirrors it, and the partial-merge operation that combines the two.

use vstd::prelude::*;

verus! {

/// Operating mode of the fan controller.
#[derive(Clone, Copy, PartialEq, Eq, Structural, Debug)]
pub enum FanMode {
    Auto,
    Manual,
    Curve,
}

/// One temperature-to-speed control point of a fan curve.
#[derive(Clone, Copy, PartialEq, Eq, Structural, Debug)]
pub struct CurvePoint {
    pub temp_c: u8,
    pub speed_percent: u8,
}

/// The fan section of the configuration document. `mode` is always
/// present; the optional fields stand for "not yet configured", never for
/// "cleared".
pub struct FanConfig {
    pub mode: FanMode,
    pub manual: Option<u8>,
    pub curve: Option<Vec<CurvePoint>>,
    pub calibration: Option<Vec<u8>>,
}

/// The persisted, mutable configuration document.
pub struct Config {
    pub fan: FanConfig,
}

/// Sparse update request for the fan section: an absent field leaves the
/// stored value untouched, a present field overwrites it wholesale.
pub struct PartialFanConfig {
    pub mode: Option<FanMode>,
    pub manual: Option<u8>,
    pub curve: Option<Vec<CurvePoint>>,
    pub calibration: Option<Vec<u8>>,
}

/// Sparse update request mirroring [`Config`].
pub struct PartialConfig {
    pub fan: Option<PartialFanConfig>,
}

/// Mathematical value of a [`FanConfig`].
#[verifier::ext_equal]
pub struct FanConfigView {
    pub mode: FanMode,
    pub manual: Option<u8>,
    pub curve: Option<Seq<CurvePoint>>,
    pub calibration: Option<Seq<u8>>,
}

/// Mathematical value of a [`Config`].
#[verifier::ext_equal]
pub struct ConfigView {
    pub fan: FanConfigView,
}

/// Mathematical value of a [`PartialFanConfig`].
#[verifier::ext_equal]
pub struct PartialFanConfigView {
    pub mode: Option<FanMode>,
    pub manual: Option<u8>,
    pub curve: Option<Seq<CurvePoint>>,
    pub calibration: Option<Seq<u8>>,
}

/// Mathematical value of a [`PartialConfig`].
#[verifier::ext_equal]
pub struct PartialConfigView {
    pub fan: Option<PartialFanConfigView>,
}

impl View for FanConfig {
    type V = FanConfigView;

    open spec fn view(&self) -> FanConfigView {
        FanConfigView {
            mode: self.mode,
            manual: self.manual,
            curve: match self.curve {
                Some(v) => Some(v@),
                None => None,
            },
            calibration: match self.calibration {
                Some(v) => Some(v@),
                None => None,
            },
        }
    }
}

impl View for Config {
    type V = ConfigView;

    open spec fn view(&self) -> ConfigView {
        ConfigView { fan: self.fan@ }
    }
}

impl View for PartialFanConfig {
    type V = PartialFanConfigView;

    open spec fn view(&self) -> PartialFanConfigView {
        PartialFanConfigView {
            mode: self.mode,
            manual: self.manual,
            curve: match self.curve {
                Some(v) => Some(v@),
                None => None,
            },
            calibration: match self.calibration {
                Some(v) => Some(v@),
                None => None,
            },
        }
    }
}

impl View for PartialConfig {
    type V = PartialConfigView;

    open spec fn view(&self) -> PartialConfigView {
        PartialConfigView {
            fan: match self.fan {
                Some(f) => Some(f@),
                None => None,
            },
        }
    }
}

/// Merge a sparse fan request into a fan section: each field present in
/// the request replaces the stored field as an atomic unit; each absent
/// field keeps the stored value.
pub open spec fn spec_merge_fan(cur: FanConfigView, req: PartialFanConfigView) -> FanConfigView {
    FanConfigView {
        mode: match req.mode {
            Some(m) => m,
            None => cur.mode,
        },
        manual: match req.manual {
            Some(m) => Some(m),
            None => cur.manual,
        },
        curve: match req.curve {
            Some(c) => Some(c),
            None => cur.curve,
        },
        calibration: match req.calibration {
            Some(c) => Some(c),
            None => cur.calibration,
        },
    }
}

/// Merge a sparse request into a whole document. A request without a fan
/// section leaves the document unchanged.
pub open spec fn spec_merge(cur: ConfigView, req: PartialConfigView) -> ConfigView {
    match req.fan {
        Some(f) => ConfigView { fan: spec_merge_fan(cur.fan, f) },
        None => cur,
    }
}

fn copy_points(v: &Vec<CurvePoint>) -> (r: Vec<CurvePoint>)
    ensures
        r@ == v@,
{
    let mut r: Vec<CurvePoint> = Vec::new();
    let mut i: usize = 0;
    while i < v.len()
        invariant
            i <= v@.len(),
            r@ == v@.subrange(0, i as int),
        decreases v@.len() - i,
    {
        r.push(v[i]);
        i = i + 1;
        proof {
            assert(r@ =~= v@.subrange(0, i as int));
        }
    }
    proof {
        assert(r@ =~= v@);
    }
    r
}

fn copy_bytes(v: &Vec<u8>) -> (r: Vec<u8>)
    ensures
        r@ == v@,
{
    let mut r: Vec<u8> = Vec::new();
    let mut i: usize = 0;
    while i < v.len()
        invariant
            i <= v@.len(),
            r@ == v@.subrange(0, i as int),
        decreases v@.len() - i,
    {
        r.push(v[i]);
        i = i + 1;
        proof {
            assert(r@ =~= v@.subrange(0, i as int));
        }
    }
    proof {
        assert(r@ =~= v@);
    }
    r
}

impl FanConfig {
    /// An independent copy with the same value.
    pub fn duplicate(&self) -> (r: FanConfig)
        ensures
            r@ == self@,
    {
        FanConfig {
            mode: self.mode,
            manual: self.manual,
            curve: match &self.curve {
                Some(v) => Some(copy_points(v)),
                None => None,
            },
            calibration: match &self.calibration {
                Some(v) => Some(copy_bytes(v)),
                None => None,
            },
        }
    }

    /// The document the process starts from when nothing was persisted.
    pub fn default_fan() -> (r: FanConfig)
        ensures
            r@ == (FanConfigView {
                mode: FanMode::Auto,
                manual: None,
                curve: None,
                calibration: None,
            }),
    {
        FanConfig { mode: FanMode::Auto, manual: None, curve: None, calibration: None }
    }
}

impl Config {
    /// An independent copy with the same value.
    pub fn duplicate(&self) -> (r: Config)
        ensures
            r@ == self@,
    {
        Config { fan: self.fan.duplicate() }
    }

    /// The default document: automatic fan mode, nothing else configured.
    pub fn default_config() -> (r: Config)
        ensures
            r@ == (ConfigView {
                fan: FanConfigView {
                    mode: FanMode::Auto,
                    manual: None,
                    curve: None,
                    calibration: None,
                },
            }),
    {
        Config { fan: FanConfig::default_fan() }
    }
}

/// Merge a sparse update request into a configuration document.
pub fn merge_config(cur: &Config, req: &PartialConfig) -> (r: Config)
    ensures
        r@ == spec_merge(cur@, req@),
{
    let mut merged = cur.duplicate();
    match &req.fan {
        Some(fan) => {
            let mut new_fan = merged.fan.duplicate();
            match fan.mode {
                Some(m) => {
                    new_fan.mode = m;
                },
                None => {},
            }
            match fan.manual {
                Some(man) => {
                    new_fan.manual = Some(man);
                },
                None => {},
            }
            match &fan.curve {
                Some(cur_pts) => {
                    new_fan.curve = Some(copy_points(cur_pts));
                },
                None => {},
            }
            match &fan.calibration {
                Some(cal) => {
                    new_fan.calibration = Some(copy_bytes(cal));
                },
                None => {},
            }
            merged.fan = new_fan;
        },
        None => {},
    }
    merged
}

/// A request whose fan section is absent leaves any document unchanged.
pub proof fn lemma_merge_absent_fan_is_identity(cur: ConfigView, req: PartialConfigView)
    requires
        req.fan is None,
    ensures
        spec_merge(cur, req) == cur,
{
}

/// After a merge with a present fan section, every field named by the
/// request holds exactly the requested value, and every field the request
/// leaves out keeps its prior value.
pub proof fn lemma_merge_overwrites_present_and_keeps_absent(
    cur: ConfigView,
    fan: PartialFanConfigView,
)
    ensures
        ({
            let m = spec_merge(cur, PartialConfigView { fan: Some(fan) });
            &&& (fan.mode matches Some(v) ==> m.fan.mode == v)
            &&& (fan.mode is None ==> m.fan.mode == cur.fan.mode)
            &&& (fan.manual matches Some(v) ==> m.fan.manual == Some(v))
            &&& (fan.manual is None ==> m.fan.manual == cur.fan.manual)
            &&& (fan.curve matches Some(v) ==> m.fan.curve == Some(v))
            &&& (fan.curve is None ==> m.fan.curve == cur.fan.curve)
            &&& (fan.calibration matches Some(v) ==> m.fan.calibration == Some(v))
            &&& (fan.calibration is None ==> m.fan.calibration == cur.fan.calibration)
        }),
{
}

} // verus!
