//! # CLI
//!
//! What the browser is started with: the image files to show and the folder
//! that images are moved to. Of the files that a search has found, only
//! those with the extension of an image are shown.

use crate::paths::{extension, file_extension, texts};
use vstd::prelude::*;
use vstd::string::StrSliceExecFns;

verus! {

/// Args holds what the browser is started with.
pub struct Args {
    /// The image files to show, in the order in which they were found.
    pub files: Vec<String>,
    /// The folder that images are moved to.
    pub dest_folder: String,
}

/// `c` is the small ASCII letter `small` or its capital.
pub open spec fn same_letter(c: char, small: char) -> bool {
    c == small || c as u32 + 32 == small as u32
}

/// `text` is `word` but for the case of its letters, where `word` is made
/// of small ASCII letters.
pub open spec fn matches_ignoring_case(text: Seq<char>, word: Seq<char>) -> bool {
    &&& text.len() == word.len()
    &&& forall|i: int| 0 <= i < word.len() ==> same_letter(#[trigger] text[i], word[i])
}

/// `ext` is the extension of an image file: one of `jpg`, `jpeg`, `png`,
/// `bmp` and `webp`, in small or capital letters.
pub open spec fn image_extension(ext: Seq<char>) -> bool {
    ||| matches_ignoring_case(ext, seq!['j', 'p', 'g'])
    ||| matches_ignoring_case(ext, seq!['j', 'p', 'e', 'g'])
    ||| matches_ignoring_case(ext, seq!['p', 'n', 'g'])
    ||| matches_ignoring_case(ext, seq!['b', 'm', 'p'])
    ||| matches_ignoring_case(ext, seq!['w', 'e', 'b', 'p'])
}

/// `path` has an extension, and it is that of an image file.
pub open spec fn is_image(path: Seq<char>) -> bool {
    match extension(path) {
        Some(ext) => image_extension(ext),
        None => false,
    }
}

/// The test by which files are selected, as a predicate.
pub open spec fn image_filter() -> spec_fn(Seq<char>) -> bool {
    |path: Seq<char>| is_image(path)
}

/// Compares `text` with `word`, ignoring the case of the letters.
fn matches_word(text: &str, word: &str) -> (same: bool)
    ensures
        same == matches_ignoring_case(text@, word@),
{
    let n: usize = word.unicode_len();
    if text.unicode_len() != n {
        return false;
    }
    let mut i: usize = 0;
    while i < n
        invariant
            i <= n,
            n == word@.len(),
            n == text@.len(),
            forall|j: int| 0 <= j < i ==> same_letter(#[trigger] text@[j], word@[j]),
        decreases n - i,
    {
        let c: char = text.get_char(i);
        let w: char = word.get_char(i);
        if !(c == w || c as u32 + 32 == w as u32) {
            assert(!same_letter(text@[i as int], word@[i as int]));
            return false;
        }
        i += 1;
    }
    true
}

/// Tells whether `ext` is the extension of an image file.
pub fn is_image_extension(ext: &str) -> (image: bool)
    ensures
        image == image_extension(ext@),
{
    proof {
        reveal_strlit("jpg");
        reveal_strlit("jpeg");
        reveal_strlit("png");
        reveal_strlit("bmp");
        reveal_strlit("webp");
        assert("jpg"@ =~= seq!['j', 'p', 'g']);
        assert("jpeg"@ =~= seq!['j', 'p', 'e', 'g']);
        assert("png"@ =~= seq!['p', 'n', 'g']);
        assert("bmp"@ =~= seq!['b', 'm', 'p']);
        assert("webp"@ =~= seq!['w', 'e', 'b', 'p']);
    }
    matches_word(ext, "jpg") || matches_word(ext, "jpeg") || matches_word(ext, "png")
        || matches_word(ext, "bmp") || matches_word(ext, "webp")
}

/// Tells whether `path` names an image file, by its extension.
pub fn is_image_path(path: &str) -> (image: bool)
    ensures
        image == is_image(path@),
{
    match file_extension(path) {
        Some(ext) => is_image_extension(ext.as_str()),
        None => false,
    }
}

/// Makes the arguments of the browser from the files that a search has
/// found and the destination folder: the files that are images are kept,
/// in their order, and the others are left out.
pub fn cli(paths: Vec<String>, dest_folder: String) -> (args: Args)
    ensures
        texts(args.files@) == texts(paths@).filter(image_filter()),
        args.dest_folder@ == dest_folder@,
{
    let mut files: Vec<String> = Vec::new();
    let mut i: usize = 0;
    proof {
        reveal(Seq::filter);
        assert(texts(paths@.take(0)) =~= Seq::<Seq<char>>::empty());
        assert(texts(files@) =~= Seq::<Seq<char>>::empty());
    }
    while i < paths.len()
        invariant
            i <= paths.len(),
            texts(files@) == texts(paths@.take(i as int)).filter(image_filter()),
        decreases paths.len() - i,
    {
        let path: &String = &paths[i];
        let keep: bool = is_image_path(path.as_str());
        let ghost before = texts(files@);
        if keep {
            files.push(path.clone());
        }
        proof {
            reveal(Seq::filter);
            let longer = texts(paths@.take(i as int + 1));
            assert(longer.drop_last() =~= texts(paths@.take(i as int)));
            assert(longer.last() == path@);
            assert(image_filter()(path@) == keep);
            if keep {
                assert(texts(files@) =~= before.push(path@));
            }
        }
        i += 1;
    }
    proof {
        assert(paths@.take(i as int) =~= paths@);
    }
    Args { files, dest_folder }
}

/// Only images are kept, each file that is kept was found, and no more
/// files are kept than were found.
pub proof fn lemma_selection_holds_images_only(found: Seq<Seq<char>>)
    ensures
        found.filter(image_filter()).len() <= found.len(),
        forall|i: int|
            0 <= i < found.filter(image_filter()).len() ==> is_image(
                #[trigger] found.filter(image_filter())[i],
            ) && found.contains(found.filter(image_filter())[i]),
        forall|i: int|
            0 <= i < found.len() && is_image(found[i]) ==> found.filter(image_filter()).contains(
                #[trigger] found[i],
            ),
{
    broadcast use vstd::seq_lib::group_filter_ensures;

    let kept = found.filter(image_filter());
    assert forall|i: int| 0 <= i < kept.len() implies is_image(#[trigger] kept[i])
        && found.contains(kept[i]) by {
        assert(image_filter()(kept[i]));
        assert(kept.contains(kept[i]));
        found.lemma_filter_contains_rev(image_filter(), kept[i]);
    }
    assert forall|i: int| 0 <= i < found.len() && is_image(found[i]) implies kept.contains(
        #[trigger] found[i],
    ) by {
        assert(image_filter()(found[i]));
    }
}

} // verus!
