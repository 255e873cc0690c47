//! Where the artefacts of a transmitted recipe land.
//!
//! A transmission is planned here and carried out by the caller: the image
//! service is asked for pictures of the dish, each picture is written to its
//! own file, and the recipe goes into a text file beside them.

use crate::sanitize::{lemma_sanitized_is_safe, sanitize, sanitized};
use crate::state::{string_views, ConversationState};
use crate::text::{decimal, push_char, push_decimal};
use vstd::prelude::*;
use vstd::string::StringExecFns;

verus! {

/// What follows the output directory in the name of the recipe's text file.
pub const RECIPE_SUFFIX: &'static str = ".txt";

/// What follows the image's index in the name of an image file.
pub const IMAGE_SUFFIX: &'static str = ".png";

/// The place for the artefacts of the recipe named `file_stem`: the
/// sanitized stem, directly under `root`.
pub open spec fn output_directory(root: Seq<char>, file_stem: Seq<char>) -> Seq<char> {
    root + seq!['/'] + sanitized(file_stem)
}

/// The file that holds the recipe's text.
pub open spec fn recipe_path(directory: Seq<char>) -> Seq<char> {
    directory + RECIPE_SUFFIX@
}

/// The file that holds the image with the given index, counted from zero.
pub open spec fn image_path(directory: Seq<char>, index: nat) -> Seq<char> {
    directory + seq!['-'] + decimal(index) + IMAGE_SUFFIX@
}

/// Every file of a transmission that yields `image_count` images: the
/// images in order, then the recipe's text.
pub open spec fn artifact_paths(directory: Seq<char>, image_count: nat) -> Seq<Seq<char>> {
    Seq::new(image_count, |i: int| image_path(directory, i as nat)).push(recipe_path(directory))
}

/// A recipe on its way to disk.
#[derive(Debug, PartialEq, Eq)]
pub struct RecipeTransmission {
    /// Where the artefacts go; also what the model is told about them.
    pub output_directory: String,
    /// What to ask the image service for.
    pub image_prompt: String,
    /// The recipe, to be written as it is.
    pub recipe_text: String,
}

/// View of a [`RecipeTransmission`].
pub struct RecipeTransmissionView {
    pub output_directory: Seq<char>,
    pub image_prompt: Seq<char>,
    pub recipe_text: Seq<char>,
}

impl View for RecipeTransmission {
    type V = RecipeTransmissionView;

    open spec fn view(&self) -> RecipeTransmissionView {
        RecipeTransmissionView {
            output_directory: self.output_directory@,
            image_prompt: self.image_prompt@,
            recipe_text: self.recipe_text@,
        }
    }
}

impl Clone for RecipeTransmission {
    fn clone(&self) -> (res: Self)
        ensures
            res@ == self@,
    {
        RecipeTransmission {
            output_directory: self.output_directory.clone(),
            image_prompt: self.image_prompt.clone(),
            recipe_text: self.recipe_text.clone(),
        }
    }
}

/// The transmission of a recipe under `root`: the stem is sanitized before
/// it becomes part of a path, prompt and text are carried as they are.
pub open spec fn transmission(
    root: Seq<char>,
    file_stem: Seq<char>,
    image_prompt: Seq<char>,
    recipe_details: Seq<char>,
) -> RecipeTransmissionView {
    RecipeTransmissionView {
        output_directory: output_directory(root, file_stem),
        image_prompt,
        recipe_text: recipe_details,
    }
}

/// Plans the transmission of a recipe. `file_stem` comes from the model and
/// is sanitized first; nothing is written here.
pub fn transmit_recipe(
    state: &ConversationState,
    file_stem: String,
    image_prompt: String,
    recipe_details: String,
) -> (plan: RecipeTransmission)
    ensures
        plan@ == transmission(state@.output, file_stem@, image_prompt@, recipe_details@),
{
    let stem = sanitize(file_stem.as_str());
    let mut directory = state.output.clone();
    push_char(&mut directory, '/');
    directory.append(stem.as_str());
    proof {
        assert(directory@ =~= output_directory(state@.output, file_stem@));
    }
    RecipeTransmission {
        output_directory: directory,
        image_prompt,
        recipe_text: recipe_details,
    }
}

impl RecipeTransmission {
    /// The file for the recipe's text.
    pub fn recipe_path(&self) -> (path: String)
        ensures
            path@ == recipe_path(self@.output_directory),
    {
        let mut path = self.output_directory.clone();
        path.append(RECIPE_SUFFIX);
        path
    }

    /// The file for the image with the given index, counted from zero.
    pub fn image_path(&self, index: usize) -> (path: String)
        ensures
            path@ == image_path(self@.output_directory, index as nat),
    {
        let mut path = self.output_directory.clone();
        push_char(&mut path, '-');
        push_decimal(&mut path, index);
        path.append(IMAGE_SUFFIX);
        path
    }

    /// Every file to write when the image service returned `image_count`
    /// images: one per image, in order, and the recipe's text last. With no
    /// image the text file is the only one.
    pub fn files(&self, image_count: usize) -> (paths: Vec<String>)
        ensures
            string_views(paths@) == artifact_paths(self@.output_directory, image_count as nat),
            paths@.len() == image_count + 1,
    {
        let mut paths: Vec<String> = Vec::new();
        let mut index: usize = 0;
        while index < image_count
            invariant
                index <= image_count,
                paths@.len() == index,
                forall|i: int|
                    0 <= i < index ==> (#[trigger] paths@[i])@ == image_path(
                        self@.output_directory,
                        i as nat,
                    ),
            decreases image_count - index,
        {
            paths.push(self.image_path(index));
            index = index + 1;
        }
        paths.push(self.recipe_path());
        proof {
            assert(string_views(paths@) =~= artifact_paths(
                self@.output_directory,
                image_count as nat,
            ));
        }
        paths
    }
}

/// Without images the recipe's text is the only file of a transmission.
pub proof fn lemma_no_image_leaves_text_only(directory: Seq<char>)
    ensures
        artifact_paths(directory, 0) == seq![recipe_path(directory)],
{
    assert(artifact_paths(directory, 0) =~= seq![recipe_path(directory)]);
}

/// A transmission's files are its images, each under its index, and the
/// recipe's text behind them.
pub proof fn lemma_artifact_paths(directory: Seq<char>, image_count: nat)
    ensures
        artifact_paths(directory, image_count).len() == image_count + 1,
        artifact_paths(directory, image_count).last() == recipe_path(directory),
        forall|i: int|
            0 <= i < image_count ==> #[trigger] artifact_paths(directory, image_count)[i]
                == image_path(directory, i as nat),
{
}

/// The output directory lies directly under the root, whatever the stem:
/// behind the root and one separator comes a segment that is not empty and
/// holds neither a separator nor a dot.
pub proof fn lemma_output_directory_under_root(root: Seq<char>, file_stem: Seq<char>)
    ensures
        output_directory(root, file_stem).len() > root.len() + 1,
        root.is_prefix_of(output_directory(root, file_stem)),
        output_directory(root, file_stem)[root.len() as int] == '/',
        forall|i: int|
            root.len() < i < output_directory(root, file_stem).len() ==> {
                let c = #[trigger] output_directory(root, file_stem)[i];
                c != '/' && c != '\\' && c != '.'
            },
{
    lemma_sanitized_is_safe(file_stem);
    let segment = sanitized(file_stem);
    let directory = output_directory(root, file_stem);
    assert forall|i: int| root.len() < i < directory.len() implies {
        let c = #[trigger] directory[i];
        c != '/' && c != '\\' && c != '.'
    } by {
        assert(directory[i] == segment[i - root.len() - 1]);
    }
}

} // verus!
