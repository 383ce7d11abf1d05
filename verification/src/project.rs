//! Projects and the engine, as the tool remembers them.

use vstd::prelude::*;
use crate::json;
use crate::json::{member_of, JsonTree};
use crate::text::chars_of;

verus! {

/// Where the engine was found.
#[derive(Clone, Debug, PartialEq, Eq)]
pub struct Engine {
    pub location: String,
}

/// A project, read from its project file.
#[derive(Clone, Debug, PartialEq, Eq)]
pub struct Project {
    pub name: String,
    pub location: String,
    pub engine_version: String,
    pub plugins: Vec<String>,
}

/// Why a project file was not accepted.
#[derive(Clone, Copy, Debug, PartialEq, Eq)]
pub enum ProjectError {
    /// The file's text is not JSON.
    InvalidJson,
    /// The member `EngineAssociation` is there and is not a string.
    EngineAssociationNotText,
    /// The member `Plugins` is there and is not an array.
    PluginsNotList,
    /// An element of `Plugins` has no member `Name` that is a string.
    PluginWithoutName,
}

/// The engine version shown for the text of `EngineAssociation`: an
/// association in braces names an engine built from source, any other text
/// is the version itself.
pub open spec fn engine_version_text(association: Seq<char>) -> Seq<char> {
    if association.len() > 0 && association.first() == '{' && association.last() == '}' {
        "From Source"@
    } else {
        association
    }
}

/// The engine version of a project file, `None` where `EngineAssociation` is
/// not a string. A file without the member has the version `Unknown`.
pub open spec fn engine_version_of(doc: JsonTree) -> Option<Seq<char>> {
    match member_of(doc, "EngineAssociation"@) {
        None => Some("Unknown"@),
        Some(JsonTree::Text(association)) => Some(engine_version_text(association)),
        Some(_) => None,
    }
}

/// The name of one element of `Plugins`: its member `Name`, where that is a
/// string.
pub open spec fn plugin_name(item: JsonTree) -> Option<Seq<char>> {
    match member_of(item, "Name"@) {
        Some(JsonTree::Text(name)) => Some(name),
        _ => None,
    }
}

/// Every element of `items` has a name.
pub open spec fn all_named(items: Seq<JsonTree>) -> bool {
    forall|i: int| 0 <= i < items.len() ==> (#[trigger] plugin_name(items[i])) is Some
}

/// The names of the elements of `items`, in order.
pub open spec fn plugin_names(items: Seq<JsonTree>) -> Seq<Seq<char>> {
    Seq::new(items.len(), |i: int| plugin_name(items[i]).unwrap())
}

/// The plugins of a project file: the names of the elements of `Plugins`,
/// none where the file has no such member.
pub open spec fn plugins_of(doc: JsonTree) -> Result<Seq<Seq<char>>, ProjectError> {
    match member_of(doc, "Plugins"@) {
        None => Ok(Seq::empty()),
        Some(JsonTree::List(items)) => if all_named(items) {
            Ok(plugin_names(items))
        } else {
            Err(ProjectError::PluginWithoutName)
        },
        Some(_) => Err(ProjectError::PluginsNotList),
    }
}

/// The engine version for the text of `EngineAssociation`.
pub fn engine_version_for(association: &str) -> (version: String)
    ensures
        version@ == engine_version_text(association@),
{
    let chars = chars_of(association);
    let n = chars.len();
    if n > 0 && chars[0] == '{' && chars[n - 1] == '}' {
        "From Source".to_owned()
    } else {
        association.to_owned()
    }
}

/// The names of the elements of `items`, `None` where one of them has none.
fn names_of(items: &Vec<serde_json::Value>) -> (r: Option<Vec<String>>)
    ensures
        r is Some <==> all_named(json::trees(items@)),
        r matches Some(names) ==> names.deep_view() == plugin_names(json::trees(items@)),
{
    let mut names: Vec<String> = Vec::new();
    let mut i: usize = 0;
    while i < items.len()
        invariant
            i <= items.len(),
            names.len() == i,
            forall|j: int|
                0 <= j < i ==> (#[trigger] plugin_name(json::trees(items@)[j])) == Some(
                    names@[j]@,
                ),
        decreases items.len() - i,
    {
        let name = match json::get(&items[i], "Name") {
            None => None,
            Some(n) => n.as_str(),
        };
        match name {
            None => {
                assert(plugin_name(json::trees(items@)[i as int]) is None);
                return None;
            },
            Some(text) => names.push(text.to_owned()),
        }
        i += 1;
    }
    assert(names.deep_view() =~= plugin_names(json::trees(items@)));
    Some(names)
}

/// A project with its texts as sequences of characters.
pub struct ProjectView {
    pub name: Seq<char>,
    pub location: Seq<char>,
    pub engine_version: Seq<char>,
    pub plugins: Seq<Seq<char>>,
}

impl View for Project {
    type V = ProjectView;

    open spec fn view(&self) -> ProjectView {
        ProjectView {
            name: self.name@,
            location: self.location@,
            engine_version: self.engine_version@,
            plugins: self.plugins.deep_view(),
        }
    }
}

impl DeepView for Project {
    type V = ProjectView;

    open spec fn deep_view(&self) -> ProjectView {
        self@
    }
}

/// What a project file that holds `doc` gives: the project with the given
/// name and location, or the first thing that is wrong with the file. The
/// engine version is looked at before the plugins.
pub open spec fn described_by(location: Seq<char>, name: Seq<char>, doc: JsonTree) -> Result<
    ProjectView,
    ProjectError,
> {
    match engine_version_of(doc) {
        None => Err(ProjectError::EngineAssociationNotText),
        Some(engine_version) => match plugins_of(doc) {
            Err(e) => Err(e),
            Ok(plugins) => Ok(ProjectView { name, location, engine_version, plugins }),
        },
    }
}

/// What a project file with the text `content` gives.
pub open spec fn project_of(location: Seq<char>, name: Seq<char>, content: Seq<char>) -> Result<
    ProjectView,
    ProjectError,
> {
    match json::document(content) {
        None => Err(ProjectError::InvalidJson),
        Some(doc) => described_by(location, name, doc),
    }
}

/// The first project of `projects` at `location`.
pub open spec fn first_at(projects: Seq<ProjectView>, location: Seq<char>, index: int) -> bool {
    &&& 0 <= index < projects.len()
    &&& projects[index].location == location
    &&& forall|k: int| 0 <= k < index ==> (#[trigger] projects[k]).location != location
}

/// The position of the first project of `projects` whose file is at
/// `location`.
pub fn find_project(projects: &Vec<Project>, location: &str) -> (r: Option<usize>)
    ensures
        match r {
            Some(index) => first_at(projects.deep_view(), location@, index as int),
            None => forall|k: int|
                0 <= k < projects.len() ==> (#[trigger] projects.deep_view()[k]).location
                    != location@,
        },
{
    let wanted = location.to_owned();
    let mut i: usize = 0;
    while i < projects.len()
        invariant
            i <= projects.len(),
            wanted@ == location@,
            forall|k: int| 0 <= k < i ==> (#[trigger] projects.deep_view()[k]).location != location@,
        decreases projects.len() - i,
    {
        if projects[i].location == wanted {
            return Some(i);
        }
        i += 1;
    }
    None
}

impl Engine {
    /// Whether a file of this name marks the place of the engine: it is the
    /// engine's solution file.
    pub fn accepts(file_name: &str) -> (r: bool)
        ensures
            r == (file_name@ == "UE5.sln"@),
    {
        let wanted = "UE5.sln".to_owned();
        let given = file_name.to_owned();
        given == wanted
    }
}

impl Project {
    /// The project with the given name whose file, at `location`, has the
    /// text `content`.
    pub fn new(location: String, name: String, content: &str) -> (r: Result<Project, ProjectError>)
        ensures
            match r {
                Ok(project) => project_of(location@, name@, content@) == Ok::<
                    ProjectView,
                    ProjectError,
                >(project@),
                Err(e) => project_of(location@, name@, content@) == Err::<ProjectView, ProjectError>(
                    e,
                ),
            },
    {
        let doc = match json::parse(content) {
            Ok(doc) => doc,
            Err(_) => { return Err(ProjectError::InvalidJson); },
        };
        let engine_version = match Project::get_engine_version(&doc) {
            Some(version) => version,
            None => { return Err(ProjectError::EngineAssociationNotText); },
        };
        match Project::get_plugins(&doc) {
            Ok(plugins) => Ok(Project { name, location, engine_version, plugins }),
            Err(e) => Err(e),
        }
    }

    /// The engine version that a project file names.
    fn get_engine_version(doc: &serde_json::Value) -> (r: Option<String>)
        ensures
            r.deep_view() == engine_version_of(json::tree(*doc)),
    {
        match json::get(doc, "EngineAssociation") {
            None => Some("Unknown".to_owned()),
            Some(association) => match association.as_str() {
                None => None,
                Some(text) => Some(engine_version_for(text)),
            },
        }
    }

    /// The plugins that a project file names.
    fn get_plugins(doc: &serde_json::Value) -> (r: Result<Vec<String>, ProjectError>)
        ensures
            match r {
                Ok(plugins) => plugins_of(json::tree(*doc)) == Ok::<Seq<Seq<char>>, ProjectError>(
                    plugins.deep_view(),
                ),
                Err(e) => plugins_of(json::tree(*doc)) == Err::<Seq<Seq<char>>, ProjectError>(e),
            },
    {
        match json::get(doc, "Plugins") {
            None => {
                let plugins: Vec<String> = Vec::new();
                assert(plugins.deep_view() =~= Seq::<Seq<char>>::empty());
                Ok(plugins)
            },
            Some(list) => match list.as_array() {
                None => Err(ProjectError::PluginsNotList),
                Some(items) => match names_of(items) {
                    None => Err(ProjectError::PluginWithoutName),
                    Some(names) => Ok(names),
                },
            },
        }
    }

    /// Whether the project's engine was built from source. Only such a
    /// project can be packaged.
    pub fn is_from_source(&self) -> (r: bool)
        ensures
            r == (self@.engine_version == "From Source"@),
    {
        let marker = "From Source".to_owned();
        self.engine_version == marker
    }
}

} // verus!
