//! The library of exercises: where the pictures of an exercise are found
//! and where they are kept.

use vstd::prelude::*;
use vstd::string::StringExecFns;
use crate::links::{slugified, slugify};

verus! {

/// The address of a picture of the dataset: its path under the address
/// that all pictures of the dataset share.
pub open spec fn prefixed(prefix: Seq<char>, image: Seq<char>) -> Seq<char> {
    prefix + "/"@ + image
}

/// The pictures of an exercise of the dataset, each with the address that
/// all pictures of the dataset share put before its path.
pub fn prefix_images(prefix: &str, images: &Vec<String>) -> (addresses: Vec<String>)
    ensures
        addresses@.len() == images@.len(),
        forall|i: int|
            0 <= i < images@.len() ==> (#[trigger] addresses@[i])@ == prefixed(
                prefix@,
                images@[i]@,
            ),
{
    let mut addresses: Vec<String> = Vec::new();
    let mut k: usize = 0;
    while k < images.len()
        invariant
            k <= images@.len(),
            addresses@.len() == k,
            forall|i: int|
                0 <= i < k ==> (#[trigger] addresses@[i])@ == prefixed(prefix@, images@[i]@),
        decreases images@.len() - k,
    {
        let mut address = String::from_str(prefix);
        address.append("/");
        address.append(images[k].as_str());
        addresses.push(address);
        k += 1;
    }
    addresses
}

/// The key under which a picture of an exercise is kept: the slug of the
/// exercise's identifier, the number of the picture, and the extension of
/// its file.
pub open spec fn image_key_of(slug: Seq<char>, number: Seq<char>, extension: Seq<char>) -> Seq<
    char,
> {
    "fitness/exercises/"@ + slug + "/"@ + number + "."@ + extension
}

/// The key under which a picture of an exercise is kept, from the slug of
/// the exercise's identifier.
pub fn image_key_with_slug(slug: &str, number: &str, extension: &str) -> (key: String)
    ensures
        key@ == image_key_of(slug@, number@, extension@),
{
    let mut key = String::from_str("fitness/exercises/");
    key.append(slug);
    key.append("/");
    key.append(number);
    key.append(".");
    key.append(extension);
    key
}

/// The key under which the picture with the number `number` of the
/// exercise `identifier` is kept. A picture whose file shows no extension
/// is kept as a PNG.
pub fn image_key(identifier: &str, number: &str, extension: Option<&str>) -> (key: String)
    ensures
        key@ == image_key_of(
            slugified(identifier@),
            number@,
            match extension {
                Some(extension) => extension@,
                None => "png"@,
            },
        ),
{
    let slug = slugify(identifier);
    let extension = match extension {
        Some(extension) => extension,
        None => "png",
    };
    image_key_with_slug(slug.as_str(), number, extension)
}

} // verus!
