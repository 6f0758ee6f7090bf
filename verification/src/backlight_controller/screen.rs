use vstd::prelude::*;

use crate::backlight_controller::value_file::{parse_value, parse_value_text};
use crate::backlight_controller::{Backlight, Device, Error};

verus! {

/// The directory that holds one directory per screen backlight controller.
pub open spec fn backlight_dir() -> Seq<char> {
    "/sys/class/backlight"@
}

/// The directory of the controller named `controller`.
pub open spec fn controller_dir(controller: Seq<char>) -> Seq<char> {
    backlight_dir() + "/"@ + controller
}

/// The path of a controller's value file.
pub open spec fn controller_value_file_path(controller: Seq<char>) -> Seq<char> {
    controller_dir(controller) + "/brightness"@
}

/// The path of a controller's maximum-value file.
pub open spec fn controller_maximum_value_file_path(controller: Seq<char>) -> Seq<char> {
    controller_dir(controller) + "/max_brightness"@
}

/// The maximal brightness that a controller offers, given what reading its
/// maximum-value file gave: 0 where it could not be read or parsed.
pub open spec fn offered_max(text: Option<String>) -> u64 {
    match text {
        Some(t) => match parse_value(t@) {
            Ok(v) => v,
            Err(_) => 0,
        },
        None => 0,
    }
}

/// Controller `best` offers a positive maximum that no controller exceeds,
/// and every controller before it offers less.
pub open spec fn is_best_controller(texts: Seq<Option<String>>, best: int) -> bool {
    &&& 0 <= best < texts.len()
    &&& offered_max(texts[best]) > 0
    &&& forall|j: int| 0 <= j < texts.len() ==> offered_max(#[trigger] texts[j]) <= offered_max(texts[best])
    &&& forall|j: int| 0 <= j < best ==> offered_max(#[trigger] texts[j]) < offered_max(texts[best])
}

/// The screen backlight, driven through the controller with the largest
/// maximal brightness.
pub struct ScreenBacklight {
    device: Device,
    best_controller: String,
    value_file_path: String,
    maximum_value_file_path: String,
}

impl ScreenBacklight {
    /// The controller that was chosen.
    pub closed spec fn spec_best_controller(&self) -> Seq<char> {
        self.best_controller@
    }

    /// Both file paths belong to the chosen controller.
    #[verifier::type_invariant]
    spec fn paths_follow_controller(self) -> bool {
        &&& self.value_file_path@ == controller_value_file_path(self.best_controller@)
        &&& self.maximum_value_file_path@ == controller_maximum_value_file_path(
            self.best_controller@,
        )
    }

    /// The file paths of a screen backlight are those of its controller.
    pub proof fn lemma_paths_follow_controller(&self)
        ensures
            self.spec_value_file_path() == controller_value_file_path(self.spec_best_controller()),
            self.spec_maximum_value_file_path() == controller_maximum_value_file_path(
                self.spec_best_controller(),
            ),
    {
    }

    /// The screen backlight driven through `best_controller`, in the state
    /// that its files describe. Reading those files is the caller's part.
    pub fn new(best_controller: String, device: Device) -> (backlight: ScreenBacklight)
        ensures
            backlight.spec_device() == device,
            backlight.spec_best_controller() == best_controller@,
            backlight.spec_value_file_path() == controller_value_file_path(best_controller@),
            backlight.spec_maximum_value_file_path() == controller_maximum_value_file_path(
                best_controller@,
            ),
    {
        let value_file_path = ScreenBacklight::value_file_path_of(best_controller.as_str());
        let maximum_value_file_path = ScreenBacklight::maximum_value_file_path_of(
            best_controller.as_str(),
        );
        ScreenBacklight { device, best_controller, value_file_path, maximum_value_file_path }
    }

    /// The directory that holds one directory per controller.
    pub fn backlight_dir() -> (dir: &'static str)
        ensures
            dir@ == backlight_dir(),
    {
        "/sys/class/backlight"
    }

    /// The directory of the controller named `controller`.
    pub fn controller_dir_of(controller: &str) -> (dir: String)
        ensures
            dir@ == controller_dir(controller@),
    {
        let mut dir = String::from_str("/sys/class/backlight");
        dir.append("/");
        dir.append(controller);
        dir
    }

    /// The path of the value file of the controller named `controller`.
    pub fn value_file_path_of(controller: &str) -> (path: String)
        ensures
            path@ == controller_value_file_path(controller@),
    {
        let mut path = ScreenBacklight::controller_dir_of(controller);
        path.append("/brightness");
        path
    }

    /// The path of the maximum-value file of the controller named `controller`.
    pub fn maximum_value_file_path_of(controller: &str) -> (path: String)
        ensures
            path@ == controller_maximum_value_file_path(controller@),
    {
        let mut path = ScreenBacklight::controller_dir_of(controller);
        path.append("/max_brightness");
        path
    }

    /// Takes a freshly read state of the device, as a reload does: the
    /// controller and both file paths stay as they are.
    pub fn set_device(&mut self, device: Device)
        ensures
            final(self).spec_device() == device,
            final(self).spec_best_controller() == old(self).spec_best_controller(),
            final(self).spec_value_file_path() == old(self).spec_value_file_path(),
            final(self).spec_maximum_value_file_path() == old(
                self,
            ).spec_maximum_value_file_path(),
    {
        proof {
            use_type_invariant(&*self);
        }
        self.device = device;
    }

    /// The name of the chosen controller.
    pub fn best_controller(&self) -> (name: &str)
        ensures
            name@ == self.spec_best_controller(),
    {
        self.best_controller.as_str()
    }

    /// Chooses among the controllers, listed in the order in which the
    /// directory gave them, by what reading their maximum-value files gave:
    /// the first of those with the largest maximum, which must be positive.
    pub fn select_best_device(max_value_texts: &Vec<Option<String>>) -> (result: Result<
        usize,
        Error,
    >)
        ensures
            match result {
                Ok(best) => is_best_controller(max_value_texts@, best as int),
                Err(e) => {
                    &&& forall|j: int|
                        0 <= j < max_value_texts@.len() ==> offered_max(
                            #[trigger] max_value_texts@[j],
                        ) == 0
                    &&& e matches Error::NoSuchDevice { device }
                    &&& device@ == "screen light"@
                },
            },
    {
        let n = max_value_texts.len();
        let mut best_value: u64 = 0;
        let mut best: Option<usize> = None;
        for i in 0..n
            invariant
                n == max_value_texts@.len(),
                match best {
                    None => best_value == 0 && forall|j: int|
                        0 <= j < i ==> offered_max(#[trigger] max_value_texts@[j]) == 0,
                    Some(b) => {
                        &&& b < i
                        &&& best_value == offered_max(max_value_texts@[b as int])
                        &&& best_value > 0
                        &&& forall|j: int|
                            0 <= j < i ==> offered_max(#[trigger] max_value_texts@[j]) <= best_value
                        &&& forall|j: int|
                            0 <= j < b ==> offered_max(#[trigger] max_value_texts@[j]) < best_value
                    },
                },
        {
            let value: u64 = match &max_value_texts[i] {
                Some(text) => match parse_value_text(text.as_str()) {
                    Ok(v) => v,
                    Err(_) => 0,
                },
                None => 0,
            };
            assert(value == offered_max(max_value_texts@[i as int]));
            if value > best_value {
                best_value = value;
                best = Some(i);
            }
        }
        match best {
            Some(b) => Ok(b),
            None => Err(Error::NoSuchDevice { device: String::from_str("screen light") }),
        }
    }
}

impl Backlight for ScreenBacklight {
    closed spec fn spec_device(&self) -> Device {
        self.device
    }

    closed spec fn spec_value_file_path(&self) -> Seq<char> {
        controller_value_file_path(self.best_controller@)
    }

    closed spec fn spec_maximum_value_file_path(&self) -> Seq<char> {
        controller_maximum_value_file_path(self.best_controller@)
    }

    fn max_value(&self) -> (value: u64) {
        self.device.max_value()
    }

    fn current_value(&self) -> (value: u64) {
        self.device.current_value()
    }

    fn current_value_file_path(&self) -> (path: &str) {
        proof {
            use_type_invariant(self);
        }
        self.value_file_path.as_str()
    }

    fn maximum_value_file_path(&self) -> (path: &str) {
        proof {
            use_type_invariant(self);
        }
        self.maximum_value_file_path.as_str()
    }
}


/// A controller offers exactly the number that its maximum-value file holds,
/// whatever its size; it offers 0 only when that file could not be read or
/// holds no `u64`.
pub proof fn lemma_offered_max_is_the_file_value(text: String, value: u64)
    ensures
        parse_value(text@) == Ok::<u64, crate::backlight_controller::value_file::IntErrorKind>(
            value,
        ) ==> offered_max(Some(text)) == value,
        text@ == crate::backlight_controller::value_file::decimal(value as nat) ==> offered_max(
            Some(text),
        ) == value,
        parse_value(text@) is Err ==> offered_max(Some(text)) == 0,
        offered_max(None) == 0,
{
    crate::backlight_controller::value_file::lemma_rendered_value_reads_back(value);
}

} // verus!
