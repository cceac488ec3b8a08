//! Choice among the devices already opened.
use vstd::prelude::*;

verus! {

/// The device to render with. With a surface, `surface_support[i]` tells
/// whether device `i` can present to it, and the first that can is chosen;
/// without one, the first device is. `None` means a new device must be
/// opened.
pub fn compatible_device(surface_support: Option<&Vec<bool>>, n_devices: usize) -> (r: Option<
    usize,
>)
    ensures
        match surface_support {
            Some(s) => match r {
                Some(i) => i < s@.len() && s@[i as int] && forall|j: int|
                    0 <= j < i ==> !#[trigger] s@[j],
                None => forall|j: int| 0 <= j < s@.len() ==> !#[trigger] s@[j],
            },
            None => r == if n_devices > 0 {
                Some(0usize)
            } else {
                None::<usize>
            },
        },
{
    match surface_support {
        Some(s) => {
            let mut i: usize = 0;
            while i < s.len()
                invariant
                    surface_support == Some(s),
                    i <= s@.len(),
                    forall|j: int| 0 <= j < i ==> !#[trigger] s@[j],
                decreases s@.len() - i,
            {
                if s[i] {
                    return Some(i);
                }
                i = i + 1;
            }
            None
        },
        None => if n_devices > 0 {
            Some(0)
        } else {
            None
        },
    }
}

} // verus!
