use vstd::prelude::*;

verus! {

/// Relies on rand::random: any value of the type may come back, drawn from
/// the thread's generator.
pub assume_specification<T>[ rand::random::<T> ]() -> (r: T)
    where
        rand::distributions::Standard: rand::distributions::Distribution<T>,
;

/// An RGBA colour with random red, green and blue and zero alpha.
pub fn random_color() -> (r: [u8; 4])
    ensures
        r@.len() == 4,
        r@[3] == 0,
{
    let red: u8 = rand::random::<u8>();
    let green: u8 = rand::random::<u8>();
    let blue: u8 = rand::random::<u8>();
    [red, green, blue, 0]
}

} // verus!
