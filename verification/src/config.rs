//! What the user can set.
use vstd::prelude::*;

verus! {

/// The settings. Those that are single-precision numbers are held as the bits of their encoding.
#[derive(Clone, Copy, Debug, PartialEq, Eq, Structural)]
pub struct Config {
    pub render_scale: u32,
    pub debug_view: DebugView,
    pub sun_azimuth: u32,
    pub sun_altitude: u32,
    pub cascade_lambda: u32,
    pub ao_slices: u32,
    pub ao_samples: u32,
    pub ao_radius: u32,
    pub ao_falloff_range: u32,
    pub ao_sample_distribution_power: u32,
    pub ao_thin_occluder_compensation: u32,
    pub ao_final_value_power: u32,
}

/// The settings at the start: half resolution, the sun at an azimuth of 45 and an altitude of
/// 80 degrees, a cascade blend of 0.7; ambient occlusion of 4 slices and 8 samples within a
/// radius of 0.35 and a falloff range of 0.615, with a distribution power of 2, a compensation of
/// 0.9 and a final power of 2.2.
pub open spec fn default_config() -> Config {
    Config {
        render_scale: 0x3f000000,
        debug_view: DebugView::Composite,
        sun_azimuth: 0x42340000,
        sun_altitude: 0x42a00000,
        cascade_lambda: 0x3f333333,
        ao_slices: 4,
        ao_samples: 8,
        ao_radius: 0x3eb33333,
        ao_falloff_range: 0x3f1d70a4,
        ao_sample_distribution_power: 0x40000000,
        ao_thin_occluder_compensation: 0x3f666666,
        ao_final_value_power: 0x400ccccd,
    }
}

impl Default for Config {
    fn default() -> (r: Self)
        ensures
            r == default_config(),
    {
        Config {
            render_scale: 0x3f000000,
            debug_view: DebugView::default(),
            sun_azimuth: 0x42340000,
            sun_altitude: 0x42a00000,
            cascade_lambda: 0x3f333333,
            ao_slices: 4,
            ao_samples: 8,
            ao_radius: 0x3eb33333,
            ao_falloff_range: 0x3f1d70a4,
            ao_sample_distribution_power: 0x40000000,
            ao_thin_occluder_compensation: 0x3f666666,
            ao_final_value_power: 0x400ccccd,
        }
    }
}

/// What the last pass puts on the screen.
#[derive(Clone, Copy, Debug, PartialEq, Eq, Structural)]
pub enum DebugView {
    Composite,
    Albedo,
    Depth,
    Normal,
    Roughness,
    Metallic,
    Velocity,
    AmbientOcclusion,
    Shadow,
}

impl Default for DebugView {
    fn default() -> (r: Self)
        ensures
            r == DebugView::Composite,
    {
        DebugView::Composite
    }
}

/// The views in the order in which the user is offered them.
pub open spec fn debug_view_order() -> Seq<DebugView> {
    seq![
        DebugView::Composite,
        DebugView::Albedo,
        DebugView::Depth,
        DebugView::Normal,
        DebugView::Roughness,
        DebugView::Metallic,
        DebugView::Velocity,
        DebugView::AmbientOcclusion,
        DebugView::Shadow,
    ]
}

impl DebugView {
    /// The number by which shaders know the view: its place in the order.
    pub open spec fn number(self) -> u32 {
        match self {
            DebugView::Composite => 0,
            DebugView::Albedo => 1,
            DebugView::Depth => 2,
            DebugView::Normal => 3,
            DebugView::Roughness => 4,
            DebugView::Metallic => 5,
            DebugView::Velocity => 6,
            DebugView::AmbientOcclusion => 7,
            DebugView::Shadow => 8,
        }
    }

    /// What the view is called.
    pub open spec fn text(self) -> Seq<char> {
        match self {
            DebugView::Composite => "Composite"@,
            DebugView::Albedo => "Albedo"@,
            DebugView::Depth => "Depth"@,
            DebugView::Normal => "Normal"@,
            DebugView::Roughness => "Roughness"@,
            DebugView::Metallic => "Metallic"@,
            DebugView::Velocity => "Velocity"@,
            DebugView::AmbientOcclusion => "Ambient Occlusion"@,
            DebugView::Shadow => "Shadow"@,
        }
    }

    /// The number by which shaders know the view.
    pub fn index(&self) -> (r: u32)
        ensures
            r == self.number(),
    {
        match self {
            DebugView::Composite => 0,
            DebugView::Albedo => 1,
            DebugView::Depth => 2,
            DebugView::Normal => 3,
            DebugView::Roughness => 4,
            DebugView::Metallic => 5,
            DebugView::Velocity => 6,
            DebugView::AmbientOcclusion => 7,
            DebugView::Shadow => 8,
        }
    }

    /// What the view is called.
    pub fn name(&self) -> (r: &'static str)
        ensures
            r@ == self.text(),
    {
        match self {
            DebugView::Composite => "Composite",
            DebugView::Albedo => "Albedo",
            DebugView::Depth => "Depth",
            DebugView::Normal => "Normal",
            DebugView::Roughness => "Roughness",
            DebugView::Metallic => "Metallic",
            DebugView::Velocity => "Velocity",
            DebugView::AmbientOcclusion => "Ambient Occlusion",
            DebugView::Shadow => "Shadow",
        }
    }

    /// The view at a place in the order, if there is one.
    pub fn from_index(index: usize) -> (r: Option<DebugView>)
        ensures
            r == if index < debug_view_order().len() {
                Some(debug_view_order()[index as int])
            } else {
                None
            },
    {
        if index == 0 {
            Some(DebugView::Composite)
        } else if index == 1 {
            Some(DebugView::Albedo)
        } else if index == 2 {
            Some(DebugView::Depth)
        } else if index == 3 {
            Some(DebugView::Normal)
        } else if index == 4 {
            Some(DebugView::Roughness)
        } else if index == 5 {
            Some(DebugView::Metallic)
        } else if index == 6 {
            Some(DebugView::Velocity)
        } else if index == 7 {
            Some(DebugView::AmbientOcclusion)
        } else if index == 8 {
            Some(DebugView::Shadow)
        } else {
            None
        }
    }
}

/// The names of all views, in order.
pub fn debug_view_names() -> (r: Vec<&'static str>)
    ensures
        r@.len() == debug_view_order().len(),
        forall|i: int|
            0 <= i < r@.len() ==> (#[trigger] r@[i])@ == debug_view_order()[i].text(),
{
    let mut r: Vec<&'static str> = Vec::new();
    let mut i: usize = 0;
    while i < 9
        invariant
            i <= 9,
            r@.len() == i,
            forall|j: int| 0 <= j < i ==> (#[trigger] r@[j])@ == debug_view_order()[j].text(),
        decreases 9 - i,
    {
        match DebugView::from_index(i) {
            Some(view) => r.push(view.name()),
            None => {},
        }
        i = i + 1;
    }
    r
}

impl Config {
    /// Shows the view that the user picked from the list.
    pub fn pick_debug_view(&mut self, index: usize)
        requires
            index < debug_view_order().len(),
        ensures
            *final(self) == (Config {
                debug_view: debug_view_order()[index as int],
                ..*old(self)
            }),
    {
        match DebugView::from_index(index) {
            Some(view) => {
                self.debug_view = view;
            },
            None => {},
        }
    }
}

/// A view is offered under its own name, and the shaders know it by its place among the views: the
/// composite image, albedo, depth, normals, roughness, metallic, velocity, ambient occlusion and
/// shadows, from nothing on.
pub proof fn law_debug_views_are_named(view: DebugView)
    ensures
        match view {
            DebugView::Composite => view.number() == 0 && view.text() == "Composite"@,
            DebugView::Albedo => view.number() == 1 && view.text() == "Albedo"@,
            DebugView::Depth => view.number() == 2 && view.text() == "Depth"@,
            DebugView::Normal => view.number() == 3 && view.text() == "Normal"@,
            DebugView::Roughness => view.number() == 4 && view.text() == "Roughness"@,
            DebugView::Metallic => view.number() == 5 && view.text() == "Metallic"@,
            DebugView::Velocity => view.number() == 6 && view.text() == "Velocity"@,
            DebugView::AmbientOcclusion => view.number() == 7 && view.text()
                == "Ambient Occlusion"@,
            DebugView::Shadow => view.number() == 8 && view.text() == "Shadow"@,
        },
{
}

/// The number of a view is its place in the order, so picking a view by its number shows it, and
/// no two views share a number.
pub proof fn law_debug_view_numbers(view: DebugView)
    ensures
        view.number() < debug_view_order().len(),
        debug_view_order()[view.number() as int] == view,
        forall|i: int|
            0 <= i < debug_view_order().len() ==> (#[trigger] debug_view_order()[i]).number() == i,
{
}

} // verus!
