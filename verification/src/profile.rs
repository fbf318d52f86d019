//! The data that profiles hold.
//!
//! A keyboard profile is a colour or a cycle of colours, a fan profile is a
//! list of points of a fan curve, and a global profile names one of each.
//! The stores keep these values without reading them; only the references
//! of a global profile matter to the coordinator.

use vstd::prelude::*;

verus! {

/// A colour of the keyboard backlight.
#[derive(Clone, Copy, Debug, PartialEq, Eq, Structural)]
pub struct Color {
    pub r: u8,
    pub g: u8,
    pub b: u8,
}

/// How the backlight moves from one colour to the next.
#[derive(Clone, Copy, Debug, PartialEq, Eq, Structural)]
pub enum ColorTransition {
    /// The colour changes at once when the time is up.
    Step,
    /// The colour fades evenly over the time given.
    Linear,
}

/// One stop of a colour cycle.
#[derive(Clone, Copy, Debug, PartialEq, Eq, Structural)]
pub struct ColorPoint {
    pub color: Color,
    pub transition: ColorTransition,
    /// Milliseconds spent on the way to this colour.
    pub transition_time: u32,
}

/// One point of a fan curve: from `temp` degrees on, the fan runs at `fan`
/// percent.
#[derive(Clone, Copy, Debug, PartialEq, Eq, Structural)]
pub struct FanProfilePoint {
    pub temp: u8,
    pub fan: u8,
}

/// A keyboard profile.
#[derive(Debug, PartialEq, Eq)]
pub enum ColorProfile {
    /// The backlight is off.
    Off,
    /// One steady colour.
    Single(Color),
    /// A cycle through several colours.
    Multiple(Vec<ColorPoint>),
}

/// The abstract value of a keyboard profile.
pub enum ColorProfileView {
    Off,
    Single(Color),
    Multiple(Seq<ColorPoint>),
}

impl View for ColorProfile {
    type V = ColorProfileView;

    open spec fn view(&self) -> ColorProfileView {
        match self {
            ColorProfile::Off => ColorProfileView::Off,
            ColorProfile::Single(color) => ColorProfileView::Single(*color),
            ColorProfile::Multiple(points) => ColorProfileView::Multiple(points@),
        }
    }
}

impl Clone for ColorProfile {
    fn clone(&self) -> (copy: Self)
        ensures
            copy@ == self@,
    {
        match self {
            ColorProfile::Off => ColorProfile::Off,
            ColorProfile::Single(color) => ColorProfile::Single(*color),
            ColorProfile::Multiple(points) => {
                let mut copied: Vec<ColorPoint> = Vec::new();
                let mut i: usize = 0;
                while i < points.len()
                    invariant
                        i <= points@.len(),
                        copied@ == points@.take(i as int),
                    decreases points@.len() - i,
                {
                    copied.push(points[i]);
                    proof {
                        assert(points@.take(i as int).push(points@[i as int]) =~= points@.take(
                            i + 1,
                        ));
                    }
                    i += 1;
                }
                proof {
                    assert(points@.take(points@.len() as int) =~= points@);
                }
                ColorProfile::Multiple(copied)
            },
        }
    }
}

/// A copy of a fan curve.
pub fn clone_fan_profile(points: &Vec<FanProfilePoint>) -> (copy: Vec<FanProfilePoint>)
    ensures
        copy@ == points@,
{
    let mut copied: Vec<FanProfilePoint> = Vec::new();
    let mut i: usize = 0;
    while i < points.len()
        invariant
            i <= points@.len(),
            copied@ == points@.take(i as int),
        decreases points@.len() - i,
    {
        copied.push(points[i]);
        proof {
            assert(points@.take(i as int).push(points@[i as int]) =~= points@.take(i + 1));
        }
        i += 1;
    }
    proof {
        assert(points@.take(points@.len() as int) =~= points@);
    }
    copied
}

/// What the fans are told to do.
#[derive(Debug, PartialEq, Eq)]
pub enum FanSetting {
    /// Follow a curve.
    Profile(Vec<FanProfilePoint>),
    /// Run at a fixed speed, in percent.
    Speed(u8),
}

/// The abstract value of a fan setting.
pub enum FanSettingView {
    Profile(Seq<FanProfilePoint>),
    Speed(u8),
}

impl View for FanSetting {
    type V = FanSettingView;

    open spec fn view(&self) -> FanSettingView {
        match self {
            FanSetting::Profile(points) => FanSettingView::Profile(points@),
            FanSetting::Speed(speed) => FanSettingView::Speed(*speed),
        }
    }
}

impl Clone for FanSetting {
    fn clone(&self) -> (copy: Self)
        ensures
            copy@ == self@,
    {
        match self {
            FanSetting::Profile(points) => FanSetting::Profile(clone_fan_profile(points)),
            FanSetting::Speed(speed) => FanSetting::Speed(*speed),
        }
    }
}

/// A global profile: the names of the fan profile and of the keyboard
/// profile that it applies.
#[derive(Debug, PartialEq, Eq)]
pub struct ProfileInfo {
    pub fan: String,
    pub keyboard: String,
}

/// The abstract value of a global profile.
pub struct ProfileInfoView {
    pub fan: Seq<char>,
    pub keyboard: Seq<char>,
}

impl View for ProfileInfo {
    type V = ProfileInfoView;

    open spec fn view(&self) -> ProfileInfoView {
        ProfileInfoView { fan: self.fan@, keyboard: self.keyboard@ }
    }
}

impl Clone for ProfileInfo {
    fn clone(&self) -> (copy: Self)
        ensures
            copy@ == self@,
    {
        ProfileInfo { fan: self.fan.clone(), keyboard: self.keyboard.clone() }
    }
}

/// A global profile together with the name it is stored under.
#[derive(Debug, PartialEq, Eq)]
pub struct FullProfileInfo {
    pub name: String,
    pub data: ProfileInfo,
}

impl Clone for FullProfileInfo {
    fn clone(&self) -> (copy: Self)
        ensures
            copy.name@ == self.name@,
            copy.data@ == self.data@,
    {
        FullProfileInfo { name: self.name.clone(), data: self.data.clone() }
    }
}

} // verus!
