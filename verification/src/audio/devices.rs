//! Input devices: what is known of each and how one is picked by name.

use crate::text::{decimal, decimal_string, same_text};
use vstd::prelude::*;
use vstd::string::StringExecFns;

verus! {

/// What is known of an input device.
#[derive(Debug, Clone)]
pub struct AudioDeviceInfo {
    pub name: String,
    pub is_default: bool,
    pub sample_rate: u32,
    pub channels: u16,
}

/// The name a device is listed under when the system gives none.
pub const UNKNOWN_DEVICE: &'static str = "Unknown Device";

/// A device as one line of text.
pub open spec fn device_line(name: Seq<char>, is_default: bool, sample_rate: u32, channels: u16) -> Seq<
    char,
> {
    name + (if is_default {
        " (default)"@
    } else {
        ""@
    }) + " - "@ + decimal(sample_rate as nat) + "Hz, "@ + decimal(channels as nat) + " ch"@
}

impl AudioDeviceInfo {
    /// What is known of the device called `name`, or of a device without
    /// a name: it is the default one where it has the default one's name.
    pub fn new(name: Option<String>, default_name: &str, sample_rate: u32, channels: u16) -> (info:
        Self)
        ensures
            info.name@ == match name {
                Some(n) => n@,
                None => UNKNOWN_DEVICE@,
            },
            info.is_default == (info.name@ == default_name@),
            info.sample_rate == sample_rate,
            info.channels == channels,
    {
        let name = match name {
            Some(n) => n,
            None => UNKNOWN_DEVICE.to_owned(),
        };
        let is_default = same_text(name.as_str(), default_name);
        AudioDeviceInfo { name, is_default, sample_rate, channels }
    }

    /// The device as one line of text: its name, a mark where it is the
    /// default one, its rate and its channels.
    pub fn to_string(&self) -> (line: String)
        ensures
            line@ == device_line(self.name@, self.is_default, self.sample_rate, self.channels),
    {
        let mut line = String::from_str(self.name.as_str());
        line.append(if self.is_default {
            " (default)"
        } else {
            ""
        });
        line.append(" - ");
        let rate = decimal_string(self.sample_rate as u64);
        line.append(rate.as_str());
        line.append("Hz, ");
        let channels = decimal_string(self.channels as u64);
        line.append(channels.as_str());
        line.append(" ch");
        line
    }
}

/// Where the device called `name` stands among the devices' names: the
/// index of the first one with exactly this name, or their number where
/// there is none.
pub open spec fn device_position(names: Seq<String>, name: Seq<char>) -> int
    decreases names.len(),
{
    if names.len() == 0 || names[0]@ == name {
        0
    } else {
        1 + device_position(names.drop_first(), name)
    }
}

proof fn lemma_device_position(names: Seq<String>, name: Seq<char>, i: int)
    requires
        0 <= i <= names.len(),
        forall|k: int| 0 <= k < i ==> names[k]@ != name,
        i < names.len() ==> names[i]@ == name,
    ensures
        device_position(names, name) == i,
    decreases names.len(),
{
    if i > 0 {
        let rest = names.drop_first();
        assert forall|k: int| 0 <= k < i - 1 implies rest[k]@ != name by {
            assert(rest[k] == names[k + 1]);
        }
        lemma_device_position(rest, name, i - 1);
    }
}

/// Picks devices by name.
pub struct AudioDeviceManager {}

impl AudioDeviceManager {
    /// A device manager.
    pub fn new() -> Self {
        AudioDeviceManager {  }
    }

    /// The device called `name` among the devices' names, in the order
    /// the system lists them: the first one with exactly this name.
    /// `None` means that there is none and the default device is taken.
    pub fn get_device_by_name(&self, names: &Vec<String>, name: &str) -> (found: Option<usize>)
        ensures
            match found {
                Some(i) => i == device_position(names@, name@) && i < names@.len(),
                None => device_position(names@, name@) == names@.len(),
            },
    {
        let mut i: usize = 0;
        while i < names.len()
            invariant
                i <= names@.len(),
                forall|k: int| 0 <= k < i ==> names@[k]@ != name@,
            decreases names@.len() - i,
        {
            if same_text(names[i].as_str(), name) {
                proof {
                    lemma_device_position(names@, name@, i as int);
                }
                return Some(i);
            }
            i = i + 1;
        }
        proof {
            lemma_device_position(names@, name@, i as int);
        }
        None
    }
}

impl Default for AudioDeviceManager {
    fn default() -> Self {
        Self::new()
    }
}

} // verus!
