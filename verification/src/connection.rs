//! The service surface: the three stores, the active profile and what was
//! last applied, behind one exclusive handle.
//!
//! Every operation takes the handle as a whole, so a rename and the
//! rewriting of the references that follow it are one step: no reader sees
//! the one without the other.
//!
//! Removing a fan or keyboard profile that a global profile still refers to
//! is allowed. The reference is left as it is, and stands for the default
//! setting (backlight off, empty fan curve) until a profile of that name is
//! stored again.

use vstd::prelude::*;
use crate::model::{
    cascaded,
    fan_renamed,
    global_renamed,
    keyboard_renamed,
    redirected,
    reloaded,
    ProfileKind,
    State,
};
use crate::profile::{
    clone_fan_profile,
    Color,
    ColorProfile,
    ColorProfileView,
    FanProfilePoint,
    FanSetting,
    FanSettingView,
    FullProfileInfo,
    ProfileInfo,
    ProfileInfoView,
};
use crate::store::{
    added,
    listed_after_add,
    listed_after_remove,
    listed_after_rename,
    looked_up,
    names_of,
    removed,
    ProfileError,
    ProfileStore,
};

verus! {

/// The order in which each store lists its names.
pub struct Listing {
    pub profiles: Seq<Seq<char>>,
    pub keyboard: Seq<Seq<char>>,
    pub fan: Seq<Seq<char>>,
}

/// The name of the global profile that is applied. It is never empty.
struct ActiveName {
    name: String,
}

impl ActiveName {
    #[verifier::type_invariant]
    spec fn well_formed(self) -> bool {
        self.name@.len() > 0
    }

    closed spec fn view(&self) -> Seq<char> {
        self.name@
    }

    fn new(name: &str) -> (active: Self)
        requires
            name@.len() > 0,
        ensures
            active.view() == name@,
    {
        ActiveName { name: name.to_owned() }
    }

    fn set(&mut self, name: &str)
        requires
            name@.len() > 0,
        ensures
            final(self).view() == name@,
    {
        self.name = name.to_owned();
    }

    fn get(&self) -> (name: &String)
        ensures
            name@ == self.view(),
            name@.len() > 0,
    {
        proof {
            use_type_invariant(self);
        }
        &self.name
    }
}

/// The service: global, keyboard and fan profiles, the active global
/// profile, and the settings that were last handed to the hardware.
pub struct TailorConnection {
    profiles: ProfileStore<ProfileInfo>,
    keyboard: ProfileStore<ColorProfile>,
    fan: ProfileStore<Vec<FanProfilePoint>>,
    active: ActiveName,
    applied_keyboard: ColorProfile,
    applied_fan: FanSetting,
}

impl View for TailorConnection {
    type V = State;

    closed spec fn view(&self) -> State {
        State {
            profiles: self.profiles@,
            keyboard: self.keyboard@,
            fan: self.fan@,
            active: self.active.view(),
            applied_keyboard: self.applied_keyboard@,
            applied_fan: self.applied_fan@,
        }
    }
}

/// Rewrites, in every global profile, a reference of the given kind to
/// `from` as a reference to `to`.
fn cascade(profiles: &mut ProfileStore<ProfileInfo>, kind: ProfileKind, from: &str, to: &str)
    ensures
        final(profiles)@ == cascaded(old(profiles)@, kind, from@, to@),
        final(profiles).names() == old(profiles).names(),
{
    let names = profiles.list_profiles();
    let old_name = from.to_owned();
    let ghost before = profiles@;
    let ghost order = profiles.names();
    let mut i: usize = 0;
    while i < names.len()
        invariant
            i <= names@.len(),
            names_of(names@) == order,
            order.no_duplicates(),
            profiles.names() == order,
            old_name@ == from@,
            forall|n: Seq<char>| order.contains(n) <==> before.contains_key(n),
            forall|n: Seq<char>| before.contains_key(n) ==> n.len() > 0,
            profiles@.dom() == before.dom(),
            forall|k: int|
                0 <= k < i ==> profiles@[#[trigger] order[k]] == redirected(
                    before[order[k]],
                    kind,
                    from@,
                    to@,
                ),
            forall|k: int| i <= k < order.len() ==> profiles@[#[trigger] order[k]] == before[order[k]],
        decreases names@.len() - i,
    {
        let name = names[i].as_str();
        proof {
            assert(order[i as int] == name@);
            assert(order.contains(name@));
        }
        let replacement = match profiles.get_profile(name) {
            Ok(info) => {
                match kind {
                    ProfileKind::Fan => {
                        if info.fan == old_name {
                            Some(ProfileInfo { fan: to.to_owned(), keyboard: info.keyboard.clone() })
                        } else {
                            None
                        }
                    },
                    ProfileKind::Keyboard => {
                        if info.keyboard == old_name {
                            Some(ProfileInfo { fan: info.fan.clone(), keyboard: to.to_owned() })
                        } else {
                            None
                        }
                    },
                }
            },
            Err(_) => None,
        };
        let ghost stored = profiles@;
        match replacement {
            Some(info) => {
                profiles.add_profile(name, info);
                proof {
                    assert(profiles@.dom() =~= before.dom());
                }
            },
            None => {},
        }
        proof {
            assert forall|k: int| 0 <= k < i + 1 implies profiles@[#[trigger] order[k]]
                == redirected(before[order[k]], kind, from@, to@) by {
                if k < i {
                    assert(order[k] != order[i as int]);
                    assert(stored[order[k]] == redirected(before[order[k]], kind, from@, to@));
                }
            }
            assert forall|k: int| i + 1 <= k < order.len() implies profiles@[#[trigger] order[k]]
                == before[order[k]] by {
                assert(order[k] != order[i as int]);
                assert(stored[order[k]] == before[order[k]]);
            }
        }
        i += 1;
    }
    proof {
        assert forall|n: Seq<char>| before.contains_key(n) implies profiles@[n] == redirected(
            before[n],
            kind,
            from@,
            to@,
        ) by {
            let k = order.index_of(n);
            assert(order.contains(n));
            assert(0 <= k < order.len() && order[k] == n);
        }
        assert(profiles@ =~= cascaded(before, kind, from@, to@));
    }
}

impl TailorConnection {
    /// The order in which the stores list their names.
    pub closed spec fn listing(&self) -> Listing {
        Listing {
            profiles: self.profiles.names(),
            keyboard: self.keyboard.names(),
            fan: self.fan.names(),
        }
    }

    /// A service without profiles, in which `active_profile_name` is the
    /// active global profile and the default settings are applied.
    pub fn new(active_profile_name: &str) -> (connection: Self)
        requires
            active_profile_name@.len() > 0,
        ensures
            connection@ == (State {
                profiles: Map::empty(),
                keyboard: Map::empty(),
                fan: Map::empty(),
                active: active_profile_name@,
                applied_keyboard: ColorProfileView::Off,
                applied_fan: FanSettingView::Profile(Seq::empty()),
            }),
            connection.listing() == (Listing {
                profiles: Seq::empty(),
                keyboard: Seq::empty(),
                fan: Seq::empty(),
            }),
    {
        TailorConnection {
            profiles: ProfileStore::new(),
            keyboard: ProfileStore::new(),
            fan: ProfileStore::new(),
            active: ActiveName::new(active_profile_name),
            applied_keyboard: ColorProfile::Off,
            applied_fan: FanSetting::Profile(Vec::new()),
        }
    }

    /// The keyboard setting that was last handed to the hardware.
    pub fn applied_keyboard(&self) -> (setting: &ColorProfile)
        ensures
            setting@ == self@.applied_keyboard,
    {
        &self.applied_keyboard
    }

    /// The fan setting that was last handed to the hardware.
    pub fn applied_fan(&self) -> (setting: &FanSetting)
        ensures
            setting@ == self@.applied_fan,
    {
        &self.applied_fan
    }
}

impl TailorConnection {
    /// Stores a keyboard profile under `name`, replacing what was stored
    /// there. It never fails.
    pub fn add_keyboard_profile(&mut self, name: &str, profile: &ColorProfile) -> (done: Result<
        (),
        ProfileError,
    >)
        requires
            name@.len() > 0,
        ensures
            done is Ok,
            final(self)@ == (State {
                keyboard: added(old(self)@.keyboard, name@, profile@),
                ..old(self)@
            }),
            final(self).listing() == (Listing {
                keyboard: listed_after_add(old(self).listing().keyboard, name@),
                ..old(self).listing()
            }),
    {
        self.keyboard.add_profile(name, profile.clone());
        Ok(())
    }

    /// The keyboard profile stored under `name`.
    pub fn get_keyboard_profile(&self, name: &str) -> (found: Result<ColorProfile, ProfileError>)
        ensures
            match found {
                Ok(profile) => looked_up(self@.keyboard, name@) == Ok::<
                    ColorProfileView,
                    ProfileError,
                >(profile@),
                Err(e) => looked_up(self@.keyboard, name@) == Err::<ColorProfileView, ProfileError>(
                    e,
                ),
            },
    {
        match self.keyboard.get_profile(name) {
            Ok(profile) => Ok(profile.clone()),
            Err(e) => Err(e),
        }
    }

    /// The names of the keyboard profiles: each stored name once, in the
    /// order of the listing. It never fails.
    pub fn list_keyboard_profiles(&self) -> (listed: Result<Vec<String>, ProfileError>)
        ensures
            listed is Ok,
            names_of(listed->Ok_0@) == self.listing().keyboard,
            self.listing().keyboard.no_duplicates(),
            forall|n: Seq<char>|
                self.listing().keyboard.contains(n) <==> self@.keyboard.contains_key(n),
            forall|n: Seq<char>| self@.keyboard.contains_key(n) ==> n.len() > 0,
    {
        Ok(self.keyboard.list_profiles())
    }

    /// Removes the keyboard profile stored under `name`. Global profiles
    /// that refer to it are left as they are.
    pub fn remove_keyboard_profile(&mut self, name: &str) -> (done: Result<(), ProfileError>)
        ensures
            match done {
                Ok(_) => {
                    &&& removed(old(self)@.keyboard, name@) is Ok
                    &&& final(self)@ == (State {
                        keyboard: removed(old(self)@.keyboard, name@)->Ok_0,
                        ..old(self)@
                    })
                    &&& final(self).listing() == (Listing {
                        keyboard: listed_after_remove(old(self).listing().keyboard, name@),
                        ..old(self).listing()
                    })
                },
                Err(e) => {
                    &&& removed(old(self)@.keyboard, name@) == Err::<
                        Map<Seq<char>, ColorProfileView>,
                        ProfileError,
                    >(e)
                    &&& final(self)@ == old(self)@
                    &&& final(self).listing() == old(self).listing()
                },
            },
    {
        self.keyboard.remove_profile(name)
    }

    /// Gives the keyboard profile `from` the name `to`, rewrites every
    /// global profile that referred to `from`, and returns the names of the
    /// keyboard profiles. Nothing changes when it refuses.
    pub fn rename_keyboard_profile(&mut self, from: &str, to: &str) -> (done: Result<
        Vec<String>,
        ProfileError,
    >)
        requires
            to@.len() > 0,
        ensures
            match done {
                Ok(list) => {
                    &&& keyboard_renamed(old(self)@, from@, to@) == Ok::<State, ProfileError>(
                        final(self)@,
                    )
                    &&& final(self).listing() == (Listing {
                        keyboard: listed_after_rename(old(self).listing().keyboard, from@, to@),
                        ..old(self).listing()
                    })
                    &&& names_of(list@) == final(self).listing().keyboard
                },
                Err(e) => {
                    &&& keyboard_renamed(old(self)@, from@, to@) == Err::<State, ProfileError>(e)
                    &&& final(self)@ == old(self)@
                    &&& final(self).listing() == old(self).listing()
                },
            },
    {
        match self.keyboard.rename_profile(from, to) {
            Ok(list) => {
                cascade(&mut self.profiles, ProfileKind::Keyboard, from, to);
                Ok(list)
            },
            Err(e) => Err(e),
        }
    }

    /// Stores what is stored under `from` under `to` as well, replacing
    /// what was stored there.
    pub fn copy_keyboard_profile(&mut self, from: &str, to: &str) -> (done: Result<
        (),
        ProfileError,
    >)
        requires
            to@.len() > 0,
        ensures
            match done {
                Ok(_) => {
                    &&& old(self)@.keyboard.contains_key(from@)
                    &&& final(self)@ == (State {
                        keyboard: added(old(self)@.keyboard, to@, old(self)@.keyboard[from@]),
                        ..old(self)@
                    })
                    &&& final(self).listing() == (Listing {
                        keyboard: listed_after_add(old(self).listing().keyboard, to@),
                        ..old(self).listing()
                    })
                },
                Err(e) => {
                    &&& e == ProfileError::NotFound
                    &&& !old(self)@.keyboard.contains_key(from@)
                    &&& final(self)@ == old(self)@
                    &&& final(self).listing() == old(self).listing()
                },
            },
    {
        let copy = match self.keyboard.get_profile(from) {
            Ok(profile) => profile.clone(),
            Err(e) => {
                return Err(e);
            },
        };
        self.keyboard.add_profile(to, copy);
        Ok(())
    }

    /// Shows one colour on the keyboard, whatever the active profile says,
    /// until the active profile is applied again. It never fails.
    pub fn override_keyboard_color(&mut self, color: &Color) -> (done: Result<(), ProfileError>)
        ensures
            done is Ok,
            final(self)@ == (State {
                applied_keyboard: ColorProfileView::Single(*color),
                ..old(self)@
            }),
            final(self).listing() == old(self).listing(),
    {
        self.applied_keyboard = ColorProfile::Single(*color);
        Ok(())
    }
}

impl TailorConnection {
    /// Stores a fan profile under `name`, replacing what was stored there.
    /// It never fails.
    pub fn add_fan_profile(&mut self, name: &str, profile: &Vec<FanProfilePoint>) -> (done: Result<
        (),
        ProfileError,
    >)
        requires
            name@.len() > 0,
        ensures
            done is Ok,
            final(self)@ == (State { fan: added(old(self)@.fan, name@, profile@), ..old(self)@ }),
            final(self).listing() == (Listing {
                fan: listed_after_add(old(self).listing().fan, name@),
                ..old(self).listing()
            }),
    {
        self.fan.add_profile(name, clone_fan_profile(profile));
        Ok(())
    }

    /// The fan profile stored under `name`.
    pub fn get_fan_profile(&self, name: &str) -> (found: Result<Vec<FanProfilePoint>, ProfileError>)
        ensures
            match found {
                Ok(profile) => looked_up(self@.fan, name@) == Ok::<
                    Seq<FanProfilePoint>,
                    ProfileError,
                >(profile@),
                Err(e) => looked_up(self@.fan, name@) == Err::<Seq<FanProfilePoint>, ProfileError>(
                    e,
                ),
            },
    {
        match self.fan.get_profile(name) {
            Ok(profile) => Ok(clone_fan_profile(profile)),
            Err(e) => Err(e),
        }
    }

    /// The names of the fan profiles: each stored name once, in the order
    /// of the listing. It never fails.
    pub fn list_fan_profiles(&self) -> (listed: Result<Vec<String>, ProfileError>)
        ensures
            listed is Ok,
            names_of(listed->Ok_0@) == self.listing().fan,
            self.listing().fan.no_duplicates(),
            forall|n: Seq<char>| self.listing().fan.contains(n) <==> self@.fan.contains_key(n),
            forall|n: Seq<char>| self@.fan.contains_key(n) ==> n.len() > 0,
    {
        Ok(self.fan.list_profiles())
    }

    /// Removes the fan profile stored under `name`. Global profiles that
    /// refer to it are left as they are.
    pub fn remove_fan_profile(&mut self, name: &str) -> (done: Result<(), ProfileError>)
        ensures
            match done {
                Ok(_) => {
                    &&& removed(old(self)@.fan, name@) is Ok
                    &&& final(self)@ == (State {
                        fan: removed(old(self)@.fan, name@)->Ok_0,
                        ..old(self)@
                    })
                    &&& final(self).listing() == (Listing {
                        fan: listed_after_remove(old(self).listing().fan, name@),
                        ..old(self).listing()
                    })
                },
                Err(e) => {
                    &&& removed(old(self)@.fan, name@) == Err::<
                        Map<Seq<char>, Seq<FanProfilePoint>>,
                        ProfileError,
                    >(e)
                    &&& final(self)@ == old(self)@
                    &&& final(self).listing() == old(self).listing()
                },
            },
    {
        self.fan.remove_profile(name)
    }

    /// Gives the fan profile `from` the name `to`, rewrites every global
    /// profile that referred to `from`, and returns the names of the fan
    /// profiles. Nothing changes when it refuses.
    pub fn rename_fan_profile(&mut self, from: &str, to: &str) -> (done: Result<
        Vec<String>,
        ProfileError,
    >)
        requires
            to@.len() > 0,
        ensures
            match done {
                Ok(list) => {
                    &&& fan_renamed(old(self)@, from@, to@) == Ok::<State, ProfileError>(
                        final(self)@,
                    )
                    &&& final(self).listing() == (Listing {
                        fan: listed_after_rename(old(self).listing().fan, from@, to@),
                        ..old(self).listing()
                    })
                    &&& names_of(list@) == final(self).listing().fan
                },
                Err(e) => {
                    &&& fan_renamed(old(self)@, from@, to@) == Err::<State, ProfileError>(e)
                    &&& final(self)@ == old(self)@
                    &&& final(self).listing() == old(self).listing()
                },
            },
    {
        match self.fan.rename_profile(from, to) {
            Ok(list) => {
                cascade(&mut self.profiles, ProfileKind::Fan, from, to);
                Ok(list)
            },
            Err(e) => Err(e),
        }
    }

    /// Stores what is stored under `from` under `to` as well, replacing
    /// what was stored there.
    pub fn copy_fan_profile(&mut self, from: &str, to: &str) -> (done: Result<(), ProfileError>)
        requires
            to@.len() > 0,
        ensures
            match done {
                Ok(_) => {
                    &&& old(self)@.fan.contains_key(from@)
                    &&& final(self)@ == (State {
                        fan: added(old(self)@.fan, to@, old(self)@.fan[from@]),
                        ..old(self)@
                    })
                    &&& final(self).listing() == (Listing {
                        fan: listed_after_add(old(self).listing().fan, to@),
                        ..old(self).listing()
                    })
                },
                Err(e) => {
                    &&& e == ProfileError::NotFound
                    &&& !old(self)@.fan.contains_key(from@)
                    &&& final(self)@ == old(self)@
                    &&& final(self).listing() == old(self).listing()
                },
            },
    {
        let copy = match self.fan.get_profile(from) {
            Ok(profile) => clone_fan_profile(profile),
            Err(e) => {
                return Err(e);
            },
        };
        self.fan.add_profile(to, copy);
        Ok(())
    }

    /// Runs the fans at one speed, whatever the active profile says, until
    /// the active profile is applied again. It never fails.
    pub fn override_fan_speed(&mut self, speed: u8) -> (done: Result<(), ProfileError>)
        ensures
            done is Ok,
            final(self)@ == (State { applied_fan: FanSettingView::Speed(speed), ..old(self)@ }),
            final(self).listing() == old(self).listing(),
    {
        self.applied_fan = FanSetting::Speed(speed);
        Ok(())
    }
}

impl TailorConnection {
    /// Stores a global profile under `name`, replacing what was stored
    /// there. Its references are not checked. It never fails.
    pub fn add_global_profile(&mut self, name: &str, profile: &ProfileInfo) -> (done: Result<
        (),
        ProfileError,
    >)
        requires
            name@.len() > 0,
        ensures
            done is Ok,
            final(self)@ == (State {
                profiles: added(old(self)@.profiles, name@, profile@),
                ..old(self)@
            }),
            final(self).listing() == (Listing {
                profiles: listed_after_add(old(self).listing().profiles, name@),
                ..old(self).listing()
            }),
    {
        self.profiles.add_profile(name, profile.clone());
        Ok(())
    }

    /// The global profile stored under `name`.
    pub fn get_global_profile(&self, name: &str) -> (found: Result<ProfileInfo, ProfileError>)
        ensures
            match found {
                Ok(profile) => looked_up(self@.profiles, name@) == Ok::<
                    ProfileInfoView,
                    ProfileError,
                >(profile@),
                Err(e) => looked_up(self@.profiles, name@) == Err::<ProfileInfoView, ProfileError>(
                    e,
                ),
            },
    {
        match self.profiles.get_profile(name) {
            Ok(profile) => Ok(profile.clone()),
            Err(e) => Err(e),
        }
    }

    /// The names of the global profiles: each stored name once, in the
    /// order of the listing. It never fails.
    pub fn list_global_profiles(&self) -> (listed: Result<Vec<String>, ProfileError>)
        ensures
            listed is Ok,
            names_of(listed->Ok_0@) == self.listing().profiles,
            self.listing().profiles.no_duplicates(),
            forall|n: Seq<char>|
                self.listing().profiles.contains(n) <==> self@.profiles.contains_key(n),
            forall|n: Seq<char>| self@.profiles.contains_key(n) ==> n.len() > 0,
    {
        Ok(self.profiles.list_profiles())
    }

    /// Every global profile with its name, in the order of the listing.
    pub fn list_full_global_profiles(&self) -> (listed: Vec<FullProfileInfo>)
        ensures
            listed@.len() == self.listing().profiles.len(),
            forall|i: int|
                0 <= i < listed@.len() ==> {
                    &&& (#[trigger] listed@[i]).name@ == self.listing().profiles[i]
                    &&& listed@[i].name@.len() > 0
                    &&& self@.profiles.contains_key(listed@[i].name@)
                    &&& listed@[i].data@ == self@.profiles[listed@[i].name@]
                },
    {
        let names = self.profiles.list_profiles();
        let mut listed: Vec<FullProfileInfo> = Vec::new();
        let mut i: usize = 0;
        while i < names.len()
            invariant
                i <= names@.len(),
                listed@.len() == i,
                names_of(names@) == self.profiles.names(),
                forall|n: Seq<char>|
                    self.profiles.names().contains(n) <==> self.profiles@.contains_key(n),
                forall|n: Seq<char>| self.profiles@.contains_key(n) ==> n.len() > 0,
                forall|k: int|
                    0 <= k < i ==> {
                        &&& (#[trigger] listed@[k]).name@ == self.profiles.names()[k]
                        &&& listed@[k].name@.len() > 0
                        &&& self.profiles@.contains_key(listed@[k].name@)
                        &&& listed@[k].data@ == self.profiles@[listed@[k].name@]
                    },
            decreases names@.len() - i,
        {
            proof {
                assert(self.profiles.names()[i as int] == names@[i as int]@);
                assert(self.profiles.names().contains(names@[i as int]@));
            }
            match self.profiles.get_profile(names[i].as_str()) {
                Ok(profile) => {
                    listed.push(FullProfileInfo { name: names[i].clone(), data: profile.clone() });
                },
                Err(_) => {
                    proof {
                        assert(false);
                    }
                },
            }
            i += 1;
        }
        listed
    }

    /// Removes the global profile stored under `name`. The active name is
    /// left as it is, also where it names the profile that leaves.
    pub fn remove_global_profile(&mut self, name: &str) -> (done: Result<(), ProfileError>)
        ensures
            match done {
                Ok(_) => {
                    &&& removed(old(self)@.profiles, name@) is Ok
                    &&& final(self)@ == (State {
                        profiles: removed(old(self)@.profiles, name@)->Ok_0,
                        ..old(self)@
                    })
                    &&& final(self).listing() == (Listing {
                        profiles: listed_after_remove(old(self).listing().profiles, name@),
                        ..old(self).listing()
                    })
                },
                Err(e) => {
                    &&& removed(old(self)@.profiles, name@) == Err::<
                        Map<Seq<char>, ProfileInfoView>,
                        ProfileError,
                    >(e)
                    &&& final(self)@ == old(self)@
                    &&& final(self).listing() == old(self).listing()
                },
            },
    {
        self.profiles.remove_profile(name)
    }

    /// Gives the global profile `from` the name `to` and returns the names
    /// of the global profiles. Where `from` was the active profile, `to`
    /// is the active profile afterwards. Nothing changes when it refuses.
    pub fn rename_global_profile(&mut self, from: &str, to: &str) -> (done: Result<
        Vec<String>,
        ProfileError,
    >)
        requires
            to@.len() > 0,
        ensures
            match done {
                Ok(list) => {
                    &&& global_renamed(old(self)@, from@, to@) == Ok::<State, ProfileError>(
                        final(self)@,
                    )
                    &&& final(self).listing() == (Listing {
                        profiles: listed_after_rename(old(self).listing().profiles, from@, to@),
                        ..old(self).listing()
                    })
                    &&& names_of(list@) == final(self).listing().profiles
                },
                Err(e) => {
                    &&& global_renamed(old(self)@, from@, to@) == Err::<State, ProfileError>(e)
                    &&& final(self)@ == old(self)@
                    &&& final(self).listing() == old(self).listing()
                },
            },
    {
        match self.profiles.rename_profile(from, to) {
            Ok(list) => {
                let old_name = from.to_owned();
                if *self.active.get() == old_name {
                    self.active.set(to);
                }
                Ok(list)
            },
            Err(e) => Err(e),
        }
    }

    /// Stores what is stored under `from` under `to` as well, replacing
    /// what was stored there.
    pub fn copy_global_profile(&mut self, from: &str, to: &str) -> (done: Result<
        (),
        ProfileError,
    >)
        requires
            to@.len() > 0,
        ensures
            match done {
                Ok(_) => {
                    &&& old(self)@.profiles.contains_key(from@)
                    &&& final(self)@ == (State {
                        profiles: added(old(self)@.profiles, to@, old(self)@.profiles[from@]),
                        ..old(self)@
                    })
                    &&& final(self).listing() == (Listing {
                        profiles: listed_after_add(old(self).listing().profiles, to@),
                        ..old(self).listing()
                    })
                },
                Err(e) => {
                    &&& e == ProfileError::NotFound
                    &&& !old(self)@.profiles.contains_key(from@)
                    &&& final(self)@ == old(self)@
                    &&& final(self).listing() == old(self).listing()
                },
            },
    {
        let copy = match self.profiles.get_profile(from) {
            Ok(profile) => profile.clone(),
            Err(e) => {
                return Err(e);
            },
        };
        self.profiles.add_profile(to, copy);
        Ok(())
    }

    /// The name of the active global profile. It is never empty, and it
    /// never fails.
    pub fn get_active_global_profile_name(&self) -> (name: Result<String, ProfileError>)
        ensures
            name is Ok,
            name->Ok_0@ == self@.active,
            self@.active.len() > 0,
    {
        Ok(self.active.get().clone())
    }

    /// Makes the global profile `name` the active one. A name under which
    /// no global profile is stored is refused, and nothing changes.
    pub fn set_active_global_profile_name(&mut self, name: &str) -> (done: Result<
        (),
        ProfileError,
    >)
        ensures
            match done {
                Ok(_) => {
                    &&& old(self)@.profiles.contains_key(name@)
                    &&& final(self)@ == (State { active: name@, ..old(self)@ })
                },
                Err(e) => {
                    &&& e == ProfileError::NotFound
                    &&& !old(self)@.profiles.contains_key(name@)
                    &&& final(self)@ == old(self)@
                },
            },
            final(self).listing() == old(self).listing(),
    {
        if self.profiles.contains(name) {
            self.active.set(name);
            Ok(())
        } else {
            Err(ProfileError::NotFound)
        }
    }

    /// Applies the active global profile again: what its references stand
    /// for becomes what is applied. It reads the stores as they are now,
    /// and never fails.
    pub fn reload(&mut self) -> (done: Result<(), ProfileError>)
        ensures
            done is Ok,
            final(self)@ == reloaded(old(self)@),
            final(self).listing() == old(self).listing(),
    {
        let mut keyboard = ColorProfile::Off;
        let mut fan: Vec<FanProfilePoint> = Vec::new();
        match self.profiles.get_profile(self.active.get().as_str()) {
            Ok(info) => {
                match self.keyboard.get_profile(info.keyboard.as_str()) {
                    Ok(profile) => {
                        keyboard = profile.clone();
                    },
                    Err(_) => {},
                }
                match self.fan.get_profile(info.fan.as_str()) {
                    Ok(profile) => {
                        fan = clone_fan_profile(profile);
                    },
                    Err(_) => {},
                }
            },
            Err(_) => {},
        }
        self.applied_keyboard = keyboard;
        self.applied_fan = FanSetting::Profile(fan);
        Ok(())
    }
}

} // verus!
