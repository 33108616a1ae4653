use vstd::prelude::*;
use crate::events::AudioDeviceInfo;

verus! {

/// The device list offered to the user: every named device in host order,
/// marked as default exactly when its name is the default device's name.
pub fn device_infos(names: Vec<String>, default_name: &Option<String>) -> (r: Vec<AudioDeviceInfo>)
    ensures
        r@.len() == names@.len(),
        forall|i: int|
            0 <= i < r@.len() ==> (#[trigger] r@[i]).name@ == names@[i]@ && r@[i].is_default == (
            default_name is Some && default_name->Some_0@ == names@[i]@),
{
    let mut r: Vec<AudioDeviceInfo> = Vec::new();
    let mut i: usize = 0;
    while i < names.len()
        invariant
            i <= names@.len(),
            r@.len() == i,
            forall|k: int|
                0 <= k < i ==> (#[trigger] r@[k]).name@ == names@[k]@ && r@[k].is_default == (
                default_name is Some && default_name->Some_0@ == names@[k]@),
        decreases names.len() - i,
    {
        let name = names[i].clone();
        let is_default = match default_name {
            Some(d) => *d == name,
            None => false,
        };
        r.push(AudioDeviceInfo { name, is_default });
        i = i + 1;
    }
    r
}

/// The position of the first device called `name`, if any.
pub fn find_device(names: &Vec<String>, name: &str) -> (r: Option<usize>)
    ensures
        r is None ==> forall|i: int| 0 <= i < names@.len() ==> (#[trigger] names@[i])@ != name@,
        r is Some ==> r->Some_0 < names@.len() && names@[r->Some_0 as int]@ == name@ && forall|i: int|
            0 <= i < r->Some_0 ==> (#[trigger] names@[i])@ != name@,
{
    let target = String::from_str(name);
    let mut i: usize = 0;
    while i < names.len()
        invariant
            i <= names@.len(),
            target@ == name@,
            forall|k: int| 0 <= k < i ==> (#[trigger] names@[k])@ != name@,
        decreases names.len() - i,
    {
        if names[i] == target {
            return Some(i);
        }
        i = i + 1;
    }
    None
}

} // verus!
