//! Pictures and other files that come with the application: where they are
//! looked for, and which picture shows this laptop.

use vstd::prelude::*;
use crate::text::{before_last_dot, contains_text, holds_text, lowercase, stem, the_last_dot_counts, to_lower, what_stands_inside};

verus! {

/// What is known of where the running program lies.
#[derive(Debug, Clone, Copy, PartialEq, Eq, Structural)]
pub enum ExeLocation {
    Unknown,
    /// The program's path is known and has no directory.
    NoDirectory,
    InDirectory,
}

/// A place where a resource may lie.
#[derive(Debug, Clone, Copy, PartialEq, Eq, Structural)]
pub enum ResourcePlace {
    /// `../../resources` from the program's directory.
    SourceTree,
    /// The program's directory.
    BesideProgram,
    /// The directory of an installed application.
    Installed,
}

/// What the search for a resource needs or has found.
#[derive(Debug, Clone, Copy, PartialEq, Eq, Structural)]
pub enum ResourceSearch {
    /// Look here next.
    Probe(ResourcePlace),
    Found(ResourcePlace),
    NotFound,
}

/// The places to look in, in order. A program without a directory ends the
/// search before it begins.
pub open spec fn resource_places(exe: ExeLocation) -> Seq<ResourcePlace> {
    match exe {
        ExeLocation::Unknown => seq![ResourcePlace::Installed],
        ExeLocation::NoDirectory => seq![],
        ExeLocation::InDirectory => seq![
            ResourcePlace::SourceTree,
            ResourcePlace::BesideProgram,
            ResourcePlace::Installed,
        ],
    }
}

/// What the search comes to after the answers so far, the first of them for
/// the first place: the first place with the resource, or the next to look in.
pub open spec fn search_result(exe: ExeLocation, exists: Seq<bool>) -> ResourceSearch
    decreases exists.len(),
{
    let places = resource_places(exe);
    if exists.len() == 0 {
        if places.len() > 0 {
            ResourceSearch::Probe(places[0])
        } else {
            ResourceSearch::NotFound
        }
    } else {
        match search_result(exe, exists.drop_last()) {
            ResourceSearch::Probe(place) => if exists.last() {
                ResourceSearch::Found(place)
            } else if exists.len() < places.len() {
                ResourceSearch::Probe(places[exists.len() as int])
            } else {
                ResourceSearch::NotFound
            },
            over => over,
        }
    }
}

/// The place to look in after `answered` answers that were all no.
fn next_place(exe: ExeLocation, answered: usize) -> (next: ResourceSearch)
    ensures
        next == if answered < resource_places(exe).len() {
            ResourceSearch::Probe(resource_places(exe)[answered as int])
        } else {
            ResourceSearch::NotFound
        },
{
    match exe {
        ExeLocation::Unknown => if answered == 0 {
            ResourceSearch::Probe(ResourcePlace::Installed)
        } else {
            ResourceSearch::NotFound
        },
        ExeLocation::NoDirectory => ResourceSearch::NotFound,
        ExeLocation::InDirectory => if answered == 0 {
            ResourceSearch::Probe(ResourcePlace::SourceTree)
        } else if answered == 1 {
            ResourceSearch::Probe(ResourcePlace::BesideProgram)
        } else if answered == 2 {
            ResourceSearch::Probe(ResourcePlace::Installed)
        } else {
            ResourceSearch::NotFound
        },
    }
}

/// Searches for a resource. `exists` holds the answers so far: whether the
/// resource lies in the first place, in the second, and so on.
pub fn find_resource_path(exe: ExeLocation, exists: &Vec<bool>) -> (search: ResourceSearch)
    ensures
        search == search_result(exe, exists@),
{
    let mut search = next_place(exe, 0);
    let mut i: usize = 0;
    assert(exists@.take(0) =~= Seq::<bool>::empty());
    while i < exists.len()
        invariant
            i <= exists.len(),
            search == search_result(exe, exists@.take(i as int)),
        decreases exists.len() - i,
    {
        assert(exists@.take(i + 1).drop_last() =~= exists@.take(i as int));
        if let ResourceSearch::Probe(place) = search {
            if exists[i] {
                search = ResourceSearch::Found(place);
            } else {
                search = next_place(exe, i + 1);
            }
        }
        i = i + 1;
    }
    assert(exists@.take(exists.len() as int) =~= exists@);
    search
}

/// The path of a resource of an installed application.
pub fn installed_resource(name: &str) -> (path: String)
    ensures
        path@ == "/opt/predator-sense/resources/"@ + name@,
{
    let mut path = "/opt/predator-sense/resources/".to_owned();
    path.append(name);
    path
}

/// A file of the picture directory shows a product: its name up to the last
/// dot is a model code that stands in the product's name, in any case.
pub open spec fn shows_product(file: Seq<char>, product: Seq<char>) -> bool {
    match before_last_dot(file) {
        Some(code) => holds_text(lowercase(product), lowercase(code)),
        None => false,
    }
}

/// A model code stands in a product's name, both in lower case.
pub open spec fn code_fits(code: Option<String>, product_lower: Seq<char>) -> bool {
    match code {
        Some(text) => holds_text(product_lower, text@),
        None => false,
    }
}

/// The first of some model codes, already in lower case, that stands in a
/// product's name in lower case. A file without a code is passed over.
pub fn first_model(product_lower: &str, codes: &Vec<Option<String>>) -> (found: Option<usize>)
    ensures
        match found {
            Some(i) => i < codes@.len() && code_fits(codes@[i as int], product_lower@) && (forall|
                k: int,
            |
                0 <= k < i ==> !code_fits(#[trigger] codes@[k], product_lower@)),
            None => forall|k: int|
                0 <= k < codes@.len() ==> !code_fits(#[trigger] codes@[k], product_lower@),
        },
{
    let mut i: usize = 0;
    while i < codes.len()
        invariant
            i <= codes.len(),
            forall|k: int| 0 <= k < i ==> !code_fits(#[trigger] codes@[k], product_lower@),
        decreases codes.len() - i,
    {
        if let Some(code) = &codes[i] {
            if contains_text(product_lower, code.as_str()) {
                return Some(i);
            }
        }
        i = i + 1;
    }
    None
}

/// The first file, in the order given, that shows the product.
pub fn find_model_photo(product_name: &str, files: &Vec<String>) -> (found: Option<usize>)
    ensures
        match found {
            Some(i) => i < files@.len() && shows_product(files@[i as int]@, product_name@) && (
            forall|k: int| 0 <= k < i ==> !shows_product(#[trigger] files@[k]@, product_name@)),
            None => forall|k: int|
                0 <= k < files@.len() ==> !shows_product(#[trigger] files@[k]@, product_name@),
        },
{
    let product_lower = to_lower(product_name);
    let mut codes: Vec<Option<String>> = Vec::new();
    let mut i: usize = 0;
    while i < files.len()
        invariant
            i <= files.len(),
            codes.len() == i,
            product_lower@ == lowercase(product_name@),
            forall|k: int|
                #![trigger codes@[k]]
                #![trigger files@[k]]
                0 <= k < i ==> (code_fits(codes@[k], lowercase(product_name@)) <==> shows_product(
                    files@[k]@,
                    product_name@,
                )),
        decreases files.len() - i,
    {
        match stem(files[i].as_str()) {
            Some(code) => codes.push(Some(to_lower(code))),
            None => codes.push(None),
        }
        i = i + 1;
    }
    first_model(product_lower.as_str(), &codes)
}

/// The picture of the laptop: its photo, or else the placeholder, or else the
/// thumbnail.
pub fn laptop_picture(
    photo: Option<String>,
    placeholder: Option<String>,
    thumbnail: Option<String>,
) -> (picture: Option<String>)
    ensures
        picture == if photo is Some {
            photo
        } else if placeholder is Some {
            placeholder
        } else {
            thumbnail
        },
{
    if photo.is_some() {
        photo
    } else if placeholder.is_some() {
        placeholder
    } else {
        thumbnail
    }
}

/// A search that has found a place found the first of the places in order
/// that has the resource, and one that has found nothing asked them all.
pub proof fn the_first_place_wins(exe: ExeLocation, exists: Seq<bool>)
    requires
        exists.len() <= resource_places(exe).len(),
    ensures
        match search_result(exe, exists) {
            ResourceSearch::Found(place) => exists|i: int|
                0 <= i < exists.len() && exists[i] && resource_places(exe)[i] == place && (forall|
                    k: int,
                |
                    0 <= k < i ==> !exists[k]),
            ResourceSearch::Probe(place) => exists.len() < resource_places(exe).len()
                && resource_places(exe)[exists.len() as int] == place && (forall|k: int|
                0 <= k < exists.len() ==> !exists[k]),
            ResourceSearch::NotFound => exists.len() == resource_places(exe).len() && (forall|
                k: int,
            |
                0 <= k < exists.len() ==> !exists[k]),
        },
    decreases exists.len(),
{
    if exists.len() > 0 {
        let front = exists.drop_last();
        the_first_place_wins(exe, front);
        assert(forall|k: int| 0 <= k < front.len() ==> front[k] == exists[k]);
        match search_result(exe, front) {
            ResourceSearch::Found(place) => {
                let i = choose|i: int|
                    0 <= i < front.len() && front[i] && resource_places(exe)[i] == place && (forall|
                        k: int,
                    |
                        0 <= k < i ==> !front[k]);
                assert(exists[i]);
                assert forall|k: int| 0 <= k < i implies !exists[k] by {
                    assert(!front[k]);
                }
            },
            ResourceSearch::Probe(place) => {
                assert forall|k: int| 0 <= k < exists.len() - 1 implies !exists[k] by {
                    assert(!front[k]);
                }
                assert(exists[exists.len() - 1] == exists.last());
            },
            ResourceSearch::NotFound => {},
        }
    }
}

/// A file whose name is a model code, a dot and an ending without a dot shows a
/// product exactly when the code, in lower case, stands somewhere in the
/// product's name in lower case. A file without a dot shows nothing.
pub proof fn a_code_in_the_name_shows_the_product(
    code: Seq<char>,
    ending: Seq<char>,
    product: Seq<char>,
)
    requires
        !ending.contains('.'),
    ensures
        shows_product(code + seq!['.'] + ending, product) <==> exists|
            front: Seq<char>,
            back: Seq<char>,
        | #[trigger] (front + lowercase(code) + back) == lowercase(product),
        !shows_product(ending, product),
{
    the_last_dot_counts(code, ending);
    what_stands_inside(lowercase(product), lowercase(code));
}

/// A code fits a name exactly when it stands somewhere in it; no code fits none.
pub proof fn a_code_fits_where_it_stands(code: String, product_lower: Seq<char>)
    ensures
        code_fits(Some(code), product_lower) <==> exists|front: Seq<char>, back: Seq<char>|
            #[trigger] (front + code@ + back) == product_lower,
        !code_fits(None, product_lower),
{
    what_stands_inside(product_lower, code@);
}

/// The places to look in: with the program's directory known, two places from
/// there and then the installed one; with nothing known, the installed one; and
/// none for a program without a directory.
pub proof fn where_to_look(exe: ExeLocation)
    ensures
        resource_places(exe).len() == match exe {
            ExeLocation::Unknown => 1int,
            ExeLocation::NoDirectory => 0,
            ExeLocation::InDirectory => 3,
        },
        resource_places(exe).no_duplicates(),
        resource_places(exe).len() > 0 ==> resource_places(exe).last() == ResourcePlace::Installed,
{
}

} // verus!
