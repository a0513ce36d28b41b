//! What a command-line front end decides before and after it calls the
//! API.

use vstd::prelude::*;
use vstd::string::StringExecFns;
use crate::request::{list_request, BodyView, CredentialView, NoContent};
use crate::text::{optional_view, texts_view};

verus! {

/// The path that a listing is asked for: the directory that was named, or
/// the empty path, which stands for the whole site, where none was.
pub open spec fn listing_scope_of(directory: Option<Seq<char>>) -> Seq<char> {
    match directory {
        Some(directory) => directory,
        None => Seq::empty(),
    }
}

/// The path that a listing is asked for.
pub fn listing_scope(directory: Option<String>) -> (path: String)
    ensures
        path@ == listing_scope_of(optional_view(directory)),
{
    match directory {
        Some(directory) => directory,
        None => String::new(),
    }
}

/// A listing asked for without a directory and one asked for with the
/// empty path are the same request, and it names no path: it asks for the
/// whole site.
pub proof fn lemma_unscoped_listing(credential: CredentialView)
    ensures
        list_request(credential, listing_scope_of(None)) == list_request(
            credential,
            Seq::empty(),
        ),
        list_request(credential, Seq::empty()).body == BodyView::<NoContent>::Empty,
        list_request(credential, Seq::empty()).query.len() == 0,
{
}

/// The name that stands in for a local path that ends in no file name.
pub const NAMELESS: &'static str = "..";

/// The path on the site to which one file is uploaded: the path that was
/// asked for, else the file's own name, else `NAMELESS`.
pub open spec fn upload_name_of(custom_path: Option<Seq<char>>, file_name: Option<Seq<char>>) -> Seq<
    char,
> {
    match custom_path {
        Some(path) => path,
        None => match file_name {
            Some(name) => name,
            None => NAMELESS@,
        },
    }
}

/// The path on the site to which one file is uploaded.
pub fn upload_name(custom_path: Option<String>, file_name: Option<String>) -> (path: String)
    ensures
        path@ == upload_name_of(optional_view(custom_path), optional_view(file_name)),
{
    match custom_path {
        Some(path) => path,
        None => match file_name {
            Some(name) => name,
            None => String::from_str(NAMELESS),
        },
    }
}

/// The tags of a site on one line: each followed by a comma and a space.
pub open spec fn tag_line_of(tags: Seq<Seq<char>>) -> Seq<char>
    decreases tags.len(),
{
    if tags.len() == 0 {
        Seq::empty()
    } else {
        tag_line_of(tags.drop_last()) + tags.last() + ", "@
    }
}

/// The tags of a site on one line.
pub fn tag_line(tags: &[String]) -> (line: String)
    ensures
        line@ == tag_line_of(texts_view(tags@)),
{
    let ghost all = texts_view(tags@);
    let mut line = String::new();
    let mut i: usize = 0;
    assert(all.take(0) =~= Seq::empty());
    while i < tags.len()
        invariant
            i <= tags.len(),
            all == texts_view(tags@),
            line@ == tag_line_of(all.take(i as int)),
        decreases tags.len() - i,
    {
        assert(all.take(i as int + 1).drop_last() =~= all.take(i as int));
        assert(all.take(i as int + 1).last() == tags@[i as int]@);
        line = line.concat(tags[i].as_str()).concat(", ");
        i += 1;
    }
    assert(all.take(i as int) =~= all);
    line
}

} // verus!
