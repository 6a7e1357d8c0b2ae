//! Scene presets: the discrete part of the simulation settings (grid, particle
//! budget, substeps, pressure solver configuration and which parts of the
//! dripper are present) for the default V60 scene, the benchmark scenes and
//! the debug-scene catalog of the browser front end.
use vstd::prelude::*;

use vstd::wrapping::u64_specs;

use crate::pressure::{PressureOperatorKind, PressureSolverKind};
use crate::text::{chars_eq_str, str_chars};

verus! {

/// Extent of the default scene box, in scene units.
pub const V60_BOUNDS_UNITS: [u32; 3] = [14, 20, 14];

/// Grid cells along x (and z) of the default scene.
pub const V60_GRID_X: u32 = 80;

/// Particles of the default coffee bed.
pub const DEFAULT_BED_PARTICLES: u32 = 12_000;

/// The discrete settings of a simulation run.
#[derive(Clone, Copy, Debug, PartialEq, Eq)]
pub struct MpmSettings {
    pub grid_dims: [u32; 3],
    pub max_particles: u32,
    pub substeps: u32,
    pub pressure_solver: PressureSolverKind,
    pub pressure_operator: PressureOperatorKind,
    pub pressure_rbgs_pairs: u32,
    pub pressure_cg_iterations: u32,
    /// Upper bound on red/black pairs when the solve adapts to its residual.
    pub pressure_rbgs_max_pairs: u32,
    pub use_sdf_cache: bool,
    /// Whether the dripper's support cone is among the obstacles.
    pub has_support_cone: bool,
    /// Whether the cup is among the obstacles.
    pub has_cup: bool,
    /// Whether the paper filter is in the scene.
    pub has_filter: bool,
    /// Particle budget of the coffee bed, when the scene has one.
    pub bed_particles: Option<u32>,
}

/// Cells along y of a grid with `gx` cells along x over a box of `bounds`:
/// enough cells of the x spacing to cover the box height.
pub open spec fn cover_cells(bounds_y: int, gx: int, bounds_x: int) -> int {
    (bounds_y * gx + bounds_x - 1) / bounds_x
}

pub open spec fn default_v60_spec() -> MpmSettings {
    MpmSettings {
        grid_dims: [80, 115, 80],
        max_particles: 220_000,
        substeps: 10,
        pressure_solver: PressureSolverKind::Rbgs,
        pressure_operator: PressureOperatorKind::Collocated,
        pressure_rbgs_pairs: 40,
        pressure_cg_iterations: 40,
        pressure_rbgs_max_pairs: 40,
        use_sdf_cache: true,
        has_support_cone: true,
        has_cup: true,
        has_filter: true,
        bed_particles: Some(DEFAULT_BED_PARTICLES),
    }
}

pub open spec fn with_pairs(s: MpmSettings, pairs: u32) -> MpmSettings {
    MpmSettings { pressure_rbgs_pairs: pairs, ..s }
}

pub open spec fn without_bed(s: MpmSettings) -> MpmSettings {
    MpmSettings { bed_particles: None, ..s }
}

pub open spec fn free_stream_spec() -> MpmSettings {
    with_pairs(without_bed(default_v60_spec()), 80)
}

/// Water in the cup alone: the cup is the only obstacle, with no filter and
/// no bed.
pub open spec fn cup_only_spec() -> MpmSettings {
    MpmSettings { has_support_cone: false, has_filter: false, ..free_stream_spec() }
}

/// A small particle pool that the pour fills quickly.
pub open spec fn capacity_stress_spec() -> MpmSettings {
    MpmSettings { max_particles: 32_000, ..with_pairs(default_v60_spec(), 80) }
}

impl MpmSettings {
    /// The default V60 scene: an 80-cell-wide grid whose cell spacing also
    /// covers the box height, a seated bed, Gauss-Seidel pressure with 40
    /// red/black pairs per substep.
    pub fn default_v60() -> (r: Self)
        ensures
            r == default_v60_spec(),
            r.grid_dims[1] == cover_cells(
                V60_BOUNDS_UNITS[1] as int,
                V60_GRID_X as int,
                V60_BOUNDS_UNITS[0] as int,
            ),
    {
        let gx = V60_GRID_X;
        let bx = V60_BOUNDS_UNITS[0];
        let by = V60_BOUNDS_UNITS[1];
        let gy = (by * gx + bx - 1) / bx;
        assert(gy == 115);
        MpmSettings {
            grid_dims: [gx, gy, gx],
            max_particles: 220_000,
            substeps: 10,
            pressure_solver: PressureSolverKind::Rbgs,
            pressure_operator: PressureOperatorKind::Collocated,
            pressure_rbgs_pairs: 40,
            pressure_cg_iterations: 40,
            pressure_rbgs_max_pairs: 40,
            use_sdf_cache: true,
            has_support_cone: true,
            has_cup: true,
            has_filter: true,
            bed_particles: Some(DEFAULT_BED_PARTICLES),
        }
    }

    /// Free stream into the cup through an empty filter, with tighter
    /// projection for the bed-less pool.
    pub fn benchmark_free_stream() -> (r: Self)
        ensures
            r == free_stream_spec(),
    {
        let mut s = Self::default_v60();
        s.bed_particles = None;
        s.pressure_rbgs_pairs = 80;
        s
    }

    pub fn benchmark_center_pour() -> (r: Self)
        ensures
            r == default_v60_spec(),
    {
        Self::default_v60()
    }

    pub fn benchmark_filter_water_block() -> (r: Self)
        ensures
            r == with_pairs(default_v60_spec(), 80),
    {
        let mut s = Self::default_v60();
        s.pressure_rbgs_pairs = 80;
        s
    }

    pub fn debug_off_center_filter_wall_pour() -> (r: Self)
        ensures
            r == with_pairs(default_v60_spec(), 80),
    {
        let mut s = Self::default_v60();
        s.pressure_rbgs_pairs = 80;
        s
    }

    pub fn debug_seeded_paper_wall_sheet() -> (r: Self)
        ensures
            r == with_pairs(default_v60_spec(), 80),
    {
        let mut s = Self::default_v60();
        s.pressure_rbgs_pairs = 80;
        s
    }

    pub fn debug_filter_apex_drain() -> (r: Self)
        ensures
            r == with_pairs(without_bed(default_v60_spec()), 80),
    {
        let mut s = Self::default_v60();
        s.bed_particles = None;
        s.pressure_rbgs_pairs = 80;
        s
    }

    fn cup_only_water_scene() -> (r: Self)
        ensures
            r == cup_only_spec(),
    {
        let mut s = Self::benchmark_free_stream();
        s.has_support_cone = false;
        s.has_filter = false;
        s.bed_particles = None;
        s
    }

    pub fn debug_cup_wall_floor_corner_contact() -> (r: Self)
        ensures
            r == with_pairs(cup_only_spec(), 90),
    {
        let mut s = Self::cup_only_water_scene();
        s.pressure_rbgs_pairs = 90;
        s
    }

    pub fn debug_asymmetric_cup_mound() -> (r: Self)
        ensures
            r == with_pairs(cup_only_spec(), 90),
    {
        let mut s = Self::cup_only_water_scene();
        s.pressure_rbgs_pairs = 90;
        s
    }

    pub fn debug_hydrostatic_column() -> (r: Self)
        ensures
            r == with_pairs(cup_only_spec(), 100),
    {
        let mut s = Self::cup_only_water_scene();
        s.pressure_rbgs_pairs = 100;
        s
    }

    pub fn debug_dam_break_slosh() -> (r: Self)
        ensures
            r == with_pairs(cup_only_spec(), 90),
    {
        let mut s = Self::cup_only_water_scene();
        s.pressure_rbgs_pairs = 90;
        s
    }

    pub fn debug_sparse_free_jet() -> (r: Self)
        ensures
            r == cup_only_spec(),
    {
        Self::cup_only_water_scene()
    }

    pub fn debug_high_velocity_jet_impact() -> (r: Self)
        ensures
            r == with_pairs(cup_only_spec(), 100),
    {
        let mut s = Self::cup_only_water_scene();
        s.pressure_rbgs_pairs = 100;
        s
    }

    pub fn debug_uniform_bed_saturation() -> (r: Self)
        ensures
            r == with_pairs(default_v60_spec(), 80),
    {
        let mut s = Self::default_v60();
        s.pressure_rbgs_pairs = 80;
        s
    }

    pub fn debug_permeability_comparison() -> (r: Self)
        ensures
            r == with_pairs(default_v60_spec(), 80),
    {
        let mut s = Self::default_v60();
        s.pressure_rbgs_pairs = 80;
        s
    }

    pub fn debug_particle_capacity_stress() -> (r: Self)
        ensures
            r == capacity_stress_spec(),
    {
        let mut s = Self::default_v60();
        s.max_particles = 32_000;
        s.pressure_rbgs_pairs = 80;
        s
    }
}

/// The debug scenes offered by the browser front end.
#[derive(Clone, Copy, Debug, PartialEq, Eq, Structural)]
pub enum DebugScene {
    FilterWaterBlock,
    OffCenterFilterWallPour,
    SeededPaperWallSheet,
    FilterApexDrain,
    CupWallFloorCornerContact,
    AsymmetricCupMoundSettle,
    HydrostaticColumn,
    DamBreakSlosh,
    SparseFreeJet,
    HighVelocityJetImpact,
    UniformBedSaturation,
    PermeabilityComparison,
    ParticleCapacityStress,
}

pub open spec fn debug_scene_id(s: DebugScene) -> Seq<char> {
    match s {
        DebugScene::FilterWaterBlock => "filter-water-block"@,
        DebugScene::OffCenterFilterWallPour => "off-center-filter-wall-pour"@,
        DebugScene::SeededPaperWallSheet => "seeded-paper-wall-sheet"@,
        DebugScene::FilterApexDrain => "filter-apex-drain"@,
        DebugScene::CupWallFloorCornerContact => "cup-wall-floor-corner-contact"@,
        DebugScene::AsymmetricCupMoundSettle => "asymmetric-cup-mound-settle"@,
        DebugScene::HydrostaticColumn => "hydrostatic-column"@,
        DebugScene::DamBreakSlosh => "dam-break-slosh"@,
        DebugScene::SparseFreeJet => "sparse-free-jet"@,
        DebugScene::HighVelocityJetImpact => "high-velocity-jet-impact"@,
        DebugScene::UniformBedSaturation => "uniform-bed-saturation"@,
        DebugScene::PermeabilityComparison => "permeability-comparison"@,
        DebugScene::ParticleCapacityStress => "particle-capacity-stress"@,
    }
}

pub open spec fn debug_scene_from_id_spec(id: Seq<char>) -> Option<DebugScene> {
    if id == debug_scene_id(DebugScene::FilterWaterBlock) {
        Some(DebugScene::FilterWaterBlock)
    } else if id == debug_scene_id(DebugScene::OffCenterFilterWallPour) {
        Some(DebugScene::OffCenterFilterWallPour)
    } else if id == debug_scene_id(DebugScene::SeededPaperWallSheet) {
        Some(DebugScene::SeededPaperWallSheet)
    } else if id == debug_scene_id(DebugScene::FilterApexDrain) {
        Some(DebugScene::FilterApexDrain)
    } else if id == debug_scene_id(DebugScene::CupWallFloorCornerContact) {
        Some(DebugScene::CupWallFloorCornerContact)
    } else if id == debug_scene_id(DebugScene::AsymmetricCupMoundSettle) {
        Some(DebugScene::AsymmetricCupMoundSettle)
    } else if id == debug_scene_id(DebugScene::HydrostaticColumn) {
        Some(DebugScene::HydrostaticColumn)
    } else if id == debug_scene_id(DebugScene::DamBreakSlosh) {
        Some(DebugScene::DamBreakSlosh)
    } else if id == debug_scene_id(DebugScene::SparseFreeJet) {
        Some(DebugScene::SparseFreeJet)
    } else if id == debug_scene_id(DebugScene::HighVelocityJetImpact) {
        Some(DebugScene::HighVelocityJetImpact)
    } else if id == debug_scene_id(DebugScene::UniformBedSaturation) {
        Some(DebugScene::UniformBedSaturation)
    } else if id == debug_scene_id(DebugScene::PermeabilityComparison) {
        Some(DebugScene::PermeabilityComparison)
    } else if id == debug_scene_id(DebugScene::ParticleCapacityStress) {
        Some(DebugScene::ParticleCapacityStress)
    } else {
        None
    }
}

pub open spec fn debug_scene_settings_spec(s: DebugScene) -> MpmSettings {
    match s {
        DebugScene::FilterWaterBlock => with_pairs(default_v60_spec(), 80),
        DebugScene::OffCenterFilterWallPour => with_pairs(default_v60_spec(), 80),
        DebugScene::SeededPaperWallSheet => with_pairs(default_v60_spec(), 80),
        DebugScene::FilterApexDrain => with_pairs(without_bed(default_v60_spec()), 80),
        DebugScene::CupWallFloorCornerContact => with_pairs(cup_only_spec(), 90),
        DebugScene::AsymmetricCupMoundSettle => with_pairs(cup_only_spec(), 90),
        DebugScene::HydrostaticColumn => with_pairs(cup_only_spec(), 100),
        DebugScene::DamBreakSlosh => with_pairs(cup_only_spec(), 90),
        DebugScene::SparseFreeJet => cup_only_spec(),
        DebugScene::HighVelocityJetImpact => with_pairs(cup_only_spec(), 100),
        DebugScene::UniformBedSaturation => with_pairs(default_v60_spec(), 80),
        DebugScene::PermeabilityComparison => with_pairs(default_v60_spec(), 80),
        DebugScene::ParticleCapacityStress => capacity_stress_spec(),
    }
}

impl DebugScene {
    /// The whole catalog, in the order the front end lists it.
    pub const ALL: [DebugScene; 13] = [
        DebugScene::FilterWaterBlock,
        DebugScene::OffCenterFilterWallPour,
        DebugScene::SeededPaperWallSheet,
        DebugScene::FilterApexDrain,
        DebugScene::CupWallFloorCornerContact,
        DebugScene::AsymmetricCupMoundSettle,
        DebugScene::HydrostaticColumn,
        DebugScene::DamBreakSlosh,
        DebugScene::SparseFreeJet,
        DebugScene::HighVelocityJetImpact,
        DebugScene::UniformBedSaturation,
        DebugScene::PermeabilityComparison,
        DebugScene::ParticleCapacityStress,
    ];

    /// The scene a front-end id names, if any.
    pub fn from_id(id: &str) -> (r: Option<DebugScene>)
        ensures
            r == debug_scene_from_id_spec(id@),
    {
        let k = str_chars(id);
        if chars_eq_str(&k, "filter-water-block") {
            Some(DebugScene::FilterWaterBlock)
        } else if chars_eq_str(&k, "off-center-filter-wall-pour") {
            Some(DebugScene::OffCenterFilterWallPour)
        } else if chars_eq_str(&k, "seeded-paper-wall-sheet") {
            Some(DebugScene::SeededPaperWallSheet)
        } else if chars_eq_str(&k, "filter-apex-drain") {
            Some(DebugScene::FilterApexDrain)
        } else if chars_eq_str(&k, "cup-wall-floor-corner-contact") {
            Some(DebugScene::CupWallFloorCornerContact)
        } else if chars_eq_str(&k, "asymmetric-cup-mound-settle") {
            Some(DebugScene::AsymmetricCupMoundSettle)
        } else if chars_eq_str(&k, "hydrostatic-column") {
            Some(DebugScene::HydrostaticColumn)
        } else if chars_eq_str(&k, "dam-break-slosh") {
            Some(DebugScene::DamBreakSlosh)
        } else if chars_eq_str(&k, "sparse-free-jet") {
            Some(DebugScene::SparseFreeJet)
        } else if chars_eq_str(&k, "high-velocity-jet-impact") {
            Some(DebugScene::HighVelocityJetImpact)
        } else if chars_eq_str(&k, "uniform-bed-saturation") {
            Some(DebugScene::UniformBedSaturation)
        } else if chars_eq_str(&k, "permeability-comparison") {
            Some(DebugScene::PermeabilityComparison)
        } else if chars_eq_str(&k, "particle-capacity-stress") {
            Some(DebugScene::ParticleCapacityStress)
        } else {
            None
        }
    }

    /// The front-end id of the scene.
    pub fn id(self) -> (r: &'static str)
        ensures
            r@ == debug_scene_id(self),
    {
        match self {
            DebugScene::FilterWaterBlock => "filter-water-block",
            DebugScene::OffCenterFilterWallPour => "off-center-filter-wall-pour",
            DebugScene::SeededPaperWallSheet => "seeded-paper-wall-sheet",
            DebugScene::FilterApexDrain => "filter-apex-drain",
            DebugScene::CupWallFloorCornerContact => "cup-wall-floor-corner-contact",
            DebugScene::AsymmetricCupMoundSettle => "asymmetric-cup-mound-settle",
            DebugScene::HydrostaticColumn => "hydrostatic-column",
            DebugScene::DamBreakSlosh => "dam-break-slosh",
            DebugScene::SparseFreeJet => "sparse-free-jet",
            DebugScene::HighVelocityJetImpact => "high-velocity-jet-impact",
            DebugScene::UniformBedSaturation => "uniform-bed-saturation",
            DebugScene::PermeabilityComparison => "permeability-comparison",
            DebugScene::ParticleCapacityStress => "particle-capacity-stress",
        }
    }

    /// The settings the scene runs with.
    pub fn settings(self) -> (r: MpmSettings)
        ensures
            r == debug_scene_settings_spec(self),
    {
        match self {
            DebugScene::FilterWaterBlock => MpmSettings::benchmark_filter_water_block(),
            DebugScene::OffCenterFilterWallPour => MpmSettings::debug_off_center_filter_wall_pour(),
            DebugScene::SeededPaperWallSheet => MpmSettings::debug_seeded_paper_wall_sheet(),
            DebugScene::FilterApexDrain => MpmSettings::debug_filter_apex_drain(),
            DebugScene::CupWallFloorCornerContact => MpmSettings::debug_cup_wall_floor_corner_contact(),
            DebugScene::AsymmetricCupMoundSettle => MpmSettings::debug_asymmetric_cup_mound(),
            DebugScene::HydrostaticColumn => MpmSettings::debug_hydrostatic_column(),
            DebugScene::DamBreakSlosh => MpmSettings::debug_dam_break_slosh(),
            DebugScene::SparseFreeJet => MpmSettings::debug_sparse_free_jet(),
            DebugScene::HighVelocityJetImpact => MpmSettings::debug_high_velocity_jet_impact(),
            DebugScene::UniformBedSaturation => MpmSettings::debug_uniform_bed_saturation(),
            DebugScene::PermeabilityComparison => MpmSettings::debug_permeability_comparison(),
            DebugScene::ParticleCapacityStress => MpmSettings::debug_particle_capacity_stress(),
        }
    }

    /// The water the scene starts with; scenes driven by the pour alone
    /// start dry.
    pub fn water_seed(self) -> (r: Option<WaterSeed>)
        ensures
            r == debug_scene_water_seed(self),
    {
        match self {
            DebugScene::FilterWaterBlock => Some(WaterSeed::FilterWaterBlock),
            DebugScene::SeededPaperWallSheet => Some(WaterSeed::PaperWallSheet),
            DebugScene::FilterApexDrain => Some(WaterSeed::FilterApexDrain),
            DebugScene::CupWallFloorCornerContact => Some(WaterSeed::CupWallFloorCornerContact),
            DebugScene::AsymmetricCupMoundSettle => Some(WaterSeed::AsymmetricCupMound),
            DebugScene::HydrostaticColumn => Some(WaterSeed::HydrostaticColumn),
            DebugScene::DamBreakSlosh => Some(WaterSeed::DamBreakSlosh),
            DebugScene::HighVelocityJetImpact => Some(WaterSeed::HighVelocityJetImpactPool),
            DebugScene::UniformBedSaturation => Some(WaterSeed::UniformBedSaturation),
            DebugScene::OffCenterFilterWallPour
            | DebugScene::SparseFreeJet
            | DebugScene::PermeabilityComparison
            | DebugScene::ParticleCapacityStress => None,
        }
    }
}

/// Pre-placed water a debug scene starts with.
#[derive(Clone, Copy, Debug, PartialEq, Eq, Structural)]
pub enum WaterSeed {
    /// A block of water resting in the filter on the bed.
    FilterWaterBlock,
    /// A thin sheet of water against the paper wall.
    PaperWallSheet,
    /// Water in the filter apex with no bed to hold it.
    FilterApexDrain,
    /// Water in the corner between cup wall and floor.
    CupWallFloorCornerContact,
    /// A lopsided mound of water in the cup.
    AsymmetricCupMound,
    /// A settled column of water in the cup.
    HydrostaticColumn,
    /// A dam of water on one side of the cup.
    DamBreakSlosh,
    /// A shallow pool in the cup for the jet to hit.
    HighVelocityJetImpactPool,
    /// Water soaking the bed evenly.
    UniformBedSaturation,
}

pub open spec fn debug_scene_water_seed(s: DebugScene) -> Option<WaterSeed> {
    match s {
        DebugScene::FilterWaterBlock => Some(WaterSeed::FilterWaterBlock),
        DebugScene::SeededPaperWallSheet => Some(WaterSeed::PaperWallSheet),
        DebugScene::FilterApexDrain => Some(WaterSeed::FilterApexDrain),
        DebugScene::CupWallFloorCornerContact => Some(WaterSeed::CupWallFloorCornerContact),
        DebugScene::AsymmetricCupMoundSettle => Some(WaterSeed::AsymmetricCupMound),
        DebugScene::HydrostaticColumn => Some(WaterSeed::HydrostaticColumn),
        DebugScene::DamBreakSlosh => Some(WaterSeed::DamBreakSlosh),
        DebugScene::HighVelocityJetImpact => Some(WaterSeed::HighVelocityJetImpactPool),
        DebugScene::UniformBedSaturation => Some(WaterSeed::UniformBedSaturation),
        _ => None,
    }
}

/// Every debug scene runs on the default V60 grid with ten substeps and the
/// default Gauss-Seidel collocated solve (40 CG iterations, a ceiling of 40
/// pairs) and the signed-distance cache; only the particle-capacity stress
/// scene shrinks the pool from 220000 to 32000 particles; the cup scenes
/// tighten the projection to 90 or 100 red/black pairs, all others run 80.
pub proof fn lemma_debug_scene_runs_on_default_grid_and_pool(s: DebugScene)
    ensures
        ({
            let st = debug_scene_settings_spec(s);
            &&& st.grid_dims == [80u32, 115u32, 80u32]
            &&& st.substeps == 10
            &&& st.pressure_solver == PressureSolverKind::Rbgs
            &&& st.pressure_operator == PressureOperatorKind::Collocated
            &&& st.pressure_cg_iterations == 40
            &&& st.pressure_rbgs_max_pairs == 40
            &&& st.use_sdf_cache
            &&& st.max_particles == if s == DebugScene::ParticleCapacityStress {
                32_000u32
            } else {
                220_000u32
            }
            &&& st.pressure_rbgs_pairs == match s {
                DebugScene::CupWallFloorCornerContact | DebugScene::AsymmetricCupMoundSettle
                | DebugScene::DamBreakSlosh => 90u32,
                DebugScene::HydrostaticColumn | DebugScene::HighVelocityJetImpact => 100u32,
                _ => 80u32,
            }
        }),
{
}

/// Every scene seeded with water in the cup has a cup and no filter, every
/// scene seeded with water on or in the filter has the filter, and the scene
/// that soaks the bed has one.
pub proof fn lemma_water_seeds_fit_scene_geometry(s: DebugScene)
    ensures
        ({
            let st = debug_scene_settings_spec(s);
            match debug_scene_water_seed(s) {
                Some(WaterSeed::FilterWaterBlock) | Some(WaterSeed::PaperWallSheet) | Some(
                    WaterSeed::FilterApexDrain,
                ) => st.has_filter,
                Some(WaterSeed::UniformBedSaturation) => st.has_filter && st.bed_particles is Some,
                Some(_) => st.has_cup && !st.has_filter,
                None => true,
            }
        }),
{
}

/// Length and first character of each scene id; together they tell the ids
/// apart.
spec fn debug_scene_id_signature(s: DebugScene) -> (nat, char) {
    match s {
        DebugScene::FilterWaterBlock => (18, 'f'),
        DebugScene::OffCenterFilterWallPour => (27, 'o'),
        DebugScene::SeededPaperWallSheet => (23, 's'),
        DebugScene::FilterApexDrain => (17, 'f'),
        DebugScene::CupWallFloorCornerContact => (29, 'c'),
        DebugScene::AsymmetricCupMoundSettle => (27, 'a'),
        DebugScene::HydrostaticColumn => (18, 'h'),
        DebugScene::DamBreakSlosh => (15, 'd'),
        DebugScene::SparseFreeJet => (15, 's'),
        DebugScene::HighVelocityJetImpact => (24, 'h'),
        DebugScene::UniformBedSaturation => (22, 'u'),
        DebugScene::PermeabilityComparison => (23, 'p'),
        DebugScene::ParticleCapacityStress => (24, 'p'),
    }
}

proof fn lemma_debug_scene_id_signature(s: DebugScene)
    ensures
        debug_scene_id(s).len() > 0,
        (debug_scene_id(s).len(), debug_scene_id(s)[0]) == debug_scene_id_signature(s),
{
    match s {
        DebugScene::FilterWaterBlock => reveal_strlit("filter-water-block"),
        DebugScene::OffCenterFilterWallPour => reveal_strlit("off-center-filter-wall-pour"),
        DebugScene::SeededPaperWallSheet => reveal_strlit("seeded-paper-wall-sheet"),
        DebugScene::FilterApexDrain => reveal_strlit("filter-apex-drain"),
        DebugScene::CupWallFloorCornerContact => reveal_strlit("cup-wall-floor-corner-contact"),
        DebugScene::AsymmetricCupMoundSettle => reveal_strlit("asymmetric-cup-mound-settle"),
        DebugScene::HydrostaticColumn => reveal_strlit("hydrostatic-column"),
        DebugScene::DamBreakSlosh => reveal_strlit("dam-break-slosh"),
        DebugScene::SparseFreeJet => reveal_strlit("sparse-free-jet"),
        DebugScene::HighVelocityJetImpact => reveal_strlit("high-velocity-jet-impact"),
        DebugScene::UniformBedSaturation => reveal_strlit("uniform-bed-saturation"),
        DebugScene::PermeabilityComparison => reveal_strlit("permeability-comparison"),
        DebugScene::ParticleCapacityStress => reveal_strlit("particle-capacity-stress"),
    }
}

/// Distinct debug scenes have distinct ids.
pub proof fn lemma_debug_scene_ids_distinct(a: DebugScene, b: DebugScene)
    ensures
        debug_scene_id(a) == debug_scene_id(b) ==> a == b,
{
    lemma_debug_scene_id_signature(a);
    lemma_debug_scene_id_signature(b);
}

/// Every debug scene can be looked up by its own id.
pub proof fn lemma_debug_scene_ids_round_trip(s: DebugScene)
    ensures
        debug_scene_from_id_spec(debug_scene_id(s)) == Some(s),
{
    assert forall|a: DebugScene, b: DebugScene|
        #[trigger] debug_scene_id(a) == #[trigger] debug_scene_id(b) implies a == b by {
        lemma_debug_scene_ids_distinct(a, b);
    }
}

/// Every debug scene has a grid, leaves room for at least 2000 water
/// particles next to its bed, and has the geometry its purpose needs: the
/// filter scenes keep filter and bed, the apex drain keeps the filter only,
/// and the cup scenes isolate the water in the cup. Every scene has a cup.
pub proof fn lemma_debug_scene_geometry(s: DebugScene)
    ensures
        ({
            let st = debug_scene_settings_spec(s);
            &&& st.grid_dims[0] > 0 && st.grid_dims[1] > 0 && st.grid_dims[2] > 0
            &&& st.max_particles > 0
            &&& st.has_cup
            &&& st.max_particles > (match st.bed_particles {
                Some(n) => n as int,
                None => 0,
            }) + 2_000
            &&& match s {
                DebugScene::FilterWaterBlock | DebugScene::OffCenterFilterWallPour
                | DebugScene::SeededPaperWallSheet | DebugScene::UniformBedSaturation
                | DebugScene::PermeabilityComparison | DebugScene::ParticleCapacityStress =>
                    st.has_filter && st.bed_particles is Some,
                DebugScene::FilterApexDrain => st.has_filter && st.bed_particles is None,
                _ => !st.has_filter && st.bed_particles is None,
            }
        }),
{
}

/// Hash of the filter geometry: FNV-1a over the bit patterns of its nine
/// parameters (centre x, y, z, top and bottom height, top and bottom radius,
/// thickness, hole radius).
pub open spec fn fnv_fold(bits: Seq<u32>) -> u64
    decreases bits.len(),
{
    if bits.len() == 0 {
        0xcbf2_9ce4_8422_2325
    } else {
        u64_specs::wrapping_mul(
            fnv_fold(bits.drop_last()) ^ (bits.last() as u64),
            0x0000_0100_0000_01b3,
        )
    }
}

/// Key under which the static filter mesh of a filter geometry is cached.
pub fn filter_config_key(bits: [u32; 9]) -> (r: u64)
    ensures
        r == fnv_fold(bits@),
{
    let mut key: u64 = 0xcbf2_9ce4_8422_2325;
    let mut i: usize = 0;
    assert(bits@.subrange(0, 0) =~= Seq::<u32>::empty());
    while i < 9
        invariant
            i <= 9,
            bits@.len() == 9,
            key == fnv_fold(bits@.subrange(0, i as int)),
        decreases 9 - i,
    {
        let ghost next = bits@.subrange(0, i + 1);
        assert(next.drop_last() =~= bits@.subrange(0, i as int));
        key = key ^ (bits[i] as u64);
        key = key.wrapping_mul(0x0000_0100_0000_01b3);
        i = i + 1;
    }
    assert(bits@.subrange(0, 9) =~= bits@);
    key
}

} // verus!
