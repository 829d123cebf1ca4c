//! The tool catalog: what the tool server lists, the definitions sent along
//! with every completion request, and the errors of a tool invocation.

use vstd::prelude::*;
use vstd::string::*;

verus! {

/// One entry of the tool server's listing. The description is optional
/// there; the schema is JSON text.
#[derive(Debug, PartialEq, Eq)]
pub struct ToolListing {
    pub name: String,
    pub description: Option<String>,
    pub input_schema: String,
}

/// The mathematical value of a [`ToolListing`].
pub struct ToolListingView {
    pub name: Seq<char>,
    pub description: Option<Seq<char>>,
    pub input_schema: Seq<char>,
}

impl View for ToolListing {
    type V = ToolListingView;

    open spec fn view(&self) -> ToolListingView {
        ToolListingView {
            name: self.name@,
            description: match self.description {
                Some(d) => Some(d@),
                None => None,
            },
            input_schema: self.input_schema@,
        }
    }
}

/// A tool as the completion backend is told about it.
#[derive(Debug, PartialEq, Eq)]
pub struct ToolDefinition {
    pub name: String,
    pub description: String,
    pub parameters: String,
}

/// The mathematical value of a [`ToolDefinition`].
pub struct ToolDefinitionView {
    pub name: Seq<char>,
    pub description: Seq<char>,
    pub parameters: Seq<char>,
}

impl View for ToolDefinition {
    type V = ToolDefinitionView;

    open spec fn view(&self) -> ToolDefinitionView {
        ToolDefinitionView {
            name: self.name@,
            description: self.description@,
            parameters: self.parameters@,
        }
    }
}

impl Clone for ToolDefinition {
    fn clone(&self) -> (res: Self)
        ensures
            res@ == self@,
    {
        ToolDefinition {
            name: self.name.clone(),
            description: self.description.clone(),
            parameters: self.parameters.clone(),
        }
    }
}

/// The views of a sequence of definitions, in order.
pub open spec fn definition_views(items: Seq<ToolDefinition>) -> Seq<ToolDefinitionView> {
    Seq::new(items.len(), |i: int| items[i]@)
}

/// Copies a list of definitions.
pub fn clone_definitions(items: &Vec<ToolDefinition>) -> (res: Vec<ToolDefinition>)
    ensures
        definition_views(res@) == definition_views(items@),
{
    let mut out: Vec<ToolDefinition> = Vec::new();
    let mut i: usize = 0;
    while i < items.len()
        invariant
            i <= items.len(),
            out.len() == i,
            forall|k: int| 0 <= k < i ==> out[k]@ == items[k]@,
        decreases items.len() - i,
    {
        out.push(items[i].clone());
        i += 1;
    }
    assert(definition_views(out@) =~= definition_views(items@));
    out
}

/// The definition that a listing entry turns into: the same name and schema,
/// and the empty description where the entry has none.
pub open spec fn definition_of(listing: ToolListingView) -> ToolDefinitionView {
    ToolDefinitionView {
        name: listing.name,
        description: match listing.description {
            Some(d) => d,
            None => Seq::empty(),
        },
        parameters: listing.input_schema,
    }
}

/// Turns the tool server's listing into request-ready definitions, one per
/// entry and in the listing's order.
pub fn tool_definitions(listings: &Vec<ToolListing>) -> (defs: Vec<ToolDefinition>)
    ensures
        defs.len() == listings.len(),
        forall|i: int| 0 <= i < listings.len() ==> defs[i]@ == definition_of(#[trigger] listings[i]@),
{
    let mut defs: Vec<ToolDefinition> = Vec::new();
    let mut i: usize = 0;
    while i < listings.len()
        invariant
            i <= listings.len(),
            defs.len() == i,
            forall|k: int| 0 <= k < i ==> defs[k]@ == definition_of(#[trigger] listings[k]@),
        decreases listings.len() - i,
    {
        let entry = &listings[i];
        let description = match &entry.description {
            Some(d) => d.clone(),
            None => String::new(),
        };
        defs.push(
            ToolDefinition {
                name: entry.name.clone(),
                description,
                parameters: entry.input_schema.clone(),
            },
        );
        i += 1;
    }
    defs
}

/// Why a tool invocation gave no result. Every kind is recoverable: its
/// text goes back to the model in place of the tool's answer.
#[derive(Debug, PartialEq, Eq)]
pub enum ToolError {
    /// No tool of that name is in the catalog.
    UnknownTool { name: String },
    /// The arguments do not fit the tool's schema.
    InvalidArguments { detail: String },
    /// The tool ran, or was to run, and failed.
    Execution { detail: String },
}

/// The mathematical value of a [`ToolError`].
pub enum ToolErrorView {
    UnknownTool { name: Seq<char> },
    InvalidArguments { detail: Seq<char> },
    Execution { detail: Seq<char> },
}

impl View for ToolError {
    type V = ToolErrorView;

    open spec fn view(&self) -> ToolErrorView {
        match *self {
            ToolError::UnknownTool { name } => ToolErrorView::UnknownTool { name: name@ },
            ToolError::InvalidArguments { detail } => ToolErrorView::InvalidArguments {
                detail: detail@,
            },
            ToolError::Execution { detail } => ToolErrorView::Execution { detail: detail@ },
        }
    }
}

/// The text of a tool error: a tag for its kind, a colon and a space, then
/// the tool's name or the detail.
pub open spec fn tool_error_text(e: ToolErrorView) -> Seq<char> {
    match e {
        ToolErrorView::UnknownTool { name } => "ToolNotFoundError: "@ + name,
        ToolErrorView::InvalidArguments { detail } => "JsonError: "@ + detail,
        ToolErrorView::Execution { detail } => "ToolCallError: "@ + detail,
    }
}

impl ToolError {
    /// The text that is handed to the model in place of a tool's answer.
    pub fn message(&self) -> (text: String)
        ensures
            text@ == tool_error_text(self@),
    {
        match self {
            ToolError::UnknownTool { name } => String::from_str("ToolNotFoundError: ").concat(
                name.as_str(),
            ),
            ToolError::InvalidArguments { detail } => String::from_str("JsonError: ").concat(
                detail.as_str(),
            ),
            ToolError::Execution { detail } => String::from_str("ToolCallError: ").concat(
                detail.as_str(),
            ),
        }
    }
}

/// Whether `i` is the place of the definition that `name` stands for: the
/// last one of that name.
pub open spec fn resolves_to(defs: Seq<ToolDefinitionView>, name: Seq<char>, i: int) -> bool {
    &&& 0 <= i < defs.len()
    &&& defs[i].name == name
    &&& forall|j: int| i < j < defs.len() ==> (#[trigger] defs[j]).name != name
}

/// Whether some definition has the given name.
pub open spec fn knows(defs: Seq<ToolDefinitionView>, name: Seq<char>) -> bool {
    exists|j: int| 0 <= j < defs.len() && (#[trigger] defs[j]).name == name
}

/// Finds the definition that a tool name stands for. Where several
/// definitions share a name, the last one stands for it.
pub fn find_tool(defs: &Vec<ToolDefinition>, name: &String) -> (found: Option<usize>)
    ensures
        match found {
            Some(i) => resolves_to(definition_views(defs@), name@, i as int),
            None => !knows(definition_views(defs@), name@),
        },
{
    let mut found: Option<usize> = None;
    let mut i: usize = 0;
    while i < defs.len()
        invariant
            i <= defs.len(),
            match found {
                Some(k) => k < i && defs[k as int].name@ == name@ && forall|j: int|
                    k < j < i ==> (#[trigger] defs[j]).name@ != name@,
                None => forall|j: int| 0 <= j < i ==> (#[trigger] defs[j]).name@ != name@,
            },
        decreases defs.len() - i,
    {
        if defs[i].name == *name {
            found = Some(i);
        }
        i += 1;
    }
    found
}

/// Decides whether a call by name can be handed to a tool: the place of the
/// tool's definition, or the error for an unknown name.
pub fn resolve_call(defs: &Vec<ToolDefinition>, name: &String) -> (res: Result<usize, ToolError>)
    ensures
        match res {
            Ok(i) => resolves_to(definition_views(defs@), name@, i as int),
            Err(e) => !knows(definition_views(defs@), name@) && e@ == (ToolErrorView::UnknownTool {
                name: name@,
            }),
        },
{
    match find_tool(defs, name) {
        Some(i) => Ok(i),
        None => Err(ToolError::UnknownTool { name: name.clone() }),
    }
}

} // verus!
