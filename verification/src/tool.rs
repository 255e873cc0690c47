//! The declaration of the one tool that the model may ask for.

use vstd::prelude::*;

verus! {

/// The name under which the tool is offered to the model.
pub const TOOL_NAME: &'static str = "transmit_recipe";

/// The argument that carries the recipe itself.
pub const RECIPE_DETAILS: &'static str = "recipe_details";

/// The argument that carries the prompt for the image model.
pub const IMAGE_PROMPT: &'static str = "image_prompt";

/// The argument that carries the stem of the files to write.
pub const FILE_STEM: &'static str = "file_stem";

/// What the tool tells the model about itself.
pub const TOOL_DESCRIPTION: &'static str = "
    this tool transmits a recipe (ingredients, instructions, and shopping list), a prompt for an
    image generation model to produce an appetizing photo of the recipe, as well as a file stem for
    saving the actual data.  It will return the actual location so that you can respond to the user.
    ";

/// What the tool tells the model about `recipe_details`.
pub const RECIPE_DETAILS_DESCRIPTION: &'static str =
    "The actual recipe, including ingredients, instructions, and shopping list";

/// What the tool tells the model about `image_prompt`.
pub const IMAGE_PROMPT_DESCRIPTION: &'static str =
    "A prompt suitable for an image generation model to produce an appetizing photo of final dish";

/// What the tool tells the model about `file_stem`.
pub const FILE_STEM_DESCRIPTION: &'static str =
    "a file stem for this recipe, all lowercase, with words separated by underscores, 
             with a 4 digit random numberic appended to the end.  such as: banana_bread_#### 
             but with numbers in place of #";

/// The type of a tool argument. The recipe tool takes strings only.
#[derive(Clone, Copy, Debug, PartialEq, Eq, Structural)]
pub enum ToolArgType {
    String,
}

/// One argument in a tool's declaration.
#[derive(Debug, PartialEq, Eq)]
pub struct ToolArg {
    pub name: String,
    pub description: String,
    pub arg_type: ToolArgType,
    pub required: bool,
}

/// View of a [`ToolArg`].
pub struct ToolArgView {
    pub name: Seq<char>,
    pub description: Seq<char>,
    pub arg_type: ToolArgType,
    pub required: bool,
}

impl View for ToolArg {
    type V = ToolArgView;

    open spec fn view(&self) -> ToolArgView {
        ToolArgView {
            name: self.name@,
            description: self.description@,
            arg_type: self.arg_type,
            required: self.required,
        }
    }
}

impl ToolArg {
    /// Declares an argument.
    pub fn new(name: &str, description: &str, arg_type: ToolArgType, required: bool) -> (arg: Self)
        ensures
            arg@ == (ToolArgView { name: name@, description: description@, arg_type, required }),
    {
        ToolArg { name: name.to_owned(), description: description.to_owned(), arg_type, required }
    }
}

impl Clone for ToolArg {
    fn clone(&self) -> (res: Self)
        ensures
            res@ == self@,
    {
        ToolArg {
            name: self.name.clone(),
            description: self.description.clone(),
            arg_type: self.arg_type,
            required: self.required,
        }
    }
}

/// The views of a list of declared arguments, in order.
pub open spec fn tool_arg_views(arguments: Seq<ToolArg>) -> Seq<ToolArgView> {
    arguments.map_values(|a: ToolArg| a@)
}

/// The declaration of a tool: its name, what it does, and its arguments.
#[derive(Debug, PartialEq, Eq)]
pub struct ToolSpec {
    pub name: String,
    pub description: String,
    pub arguments: Vec<ToolArg>,
}

/// View of a [`ToolSpec`].
pub struct ToolSpecView {
    pub name: Seq<char>,
    pub description: Seq<char>,
    pub arguments: Seq<ToolArgView>,
}

impl View for ToolSpec {
    type V = ToolSpecView;

    open spec fn view(&self) -> ToolSpecView {
        ToolSpecView {
            name: self.name@,
            description: self.description@,
            arguments: tool_arg_views(self.arguments@),
        }
    }
}

impl Clone for ToolSpec {
    fn clone(&self) -> (res: Self)
        ensures
            res@ == self@,
    {
        let arguments = self.arguments.clone();
        proof {
            assert(tool_arg_views(arguments@) =~= tool_arg_views(self.arguments@));
        }
        ToolSpec { name: self.name.clone(), description: self.description.clone(), arguments }
    }
}

/// The declaration of the recipe transmission tool.
pub open spec fn recipe_tool() -> ToolSpecView {
    ToolSpecView {
        name: TOOL_NAME@,
        description: TOOL_DESCRIPTION@,
        arguments: seq![
            ToolArgView {
                name: RECIPE_DETAILS@,
                description: RECIPE_DETAILS_DESCRIPTION@,
                arg_type: ToolArgType::String,
                required: true,
            },
            ToolArgView {
                name: IMAGE_PROMPT@,
                description: IMAGE_PROMPT_DESCRIPTION@,
                arg_type: ToolArgType::String,
                required: true,
            },
            ToolArgView {
                name: FILE_STEM@,
                description: FILE_STEM_DESCRIPTION@,
                arg_type: ToolArgType::String,
                required: true,
            },
        ],
    }
}

/// Declares the recipe transmission tool: three required string arguments,
/// the recipe, the image prompt and the file stem.
pub fn mk_recipe_tramission_tool() -> (tool: ToolSpec)
    ensures
        tool@ == recipe_tool(),
        tool@.arguments.len() == 3,
        forall|i: int|
            0 <= i < 3 ==> (#[trigger] tool@.arguments[i]).required && tool@.arguments[i].arg_type
                == ToolArgType::String,
{
    let mut arguments: Vec<ToolArg> = Vec::new();
    arguments.push(
        ToolArg::new(RECIPE_DETAILS, RECIPE_DETAILS_DESCRIPTION, ToolArgType::String, true),
    );
    arguments.push(ToolArg::new(IMAGE_PROMPT, IMAGE_PROMPT_DESCRIPTION, ToolArgType::String, true));
    arguments.push(ToolArg::new(FILE_STEM, FILE_STEM_DESCRIPTION, ToolArgType::String, true));
    let tool = ToolSpec {
        name: TOOL_NAME.to_owned(),
        description: TOOL_DESCRIPTION.to_owned(),
        arguments,
    };
    proof {
        assert(tool@.arguments =~= recipe_tool().arguments);
    }
    tool
}

} // verus!
