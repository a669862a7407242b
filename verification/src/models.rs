//! The data model: projects, tasks, routes and quick-access entries.

use vstd::prelude::*;

verus! {

/// `uuid::Uuid`, the identifier of a project or task. The library only
/// stores and hands on such a value; nothing is claimed of what it holds.
#[verifier::external_type_specification]
#[verifier::external_body]
pub struct ExUuid(uuid::Uuid);

/// `chrono::NaiveDateTime`, a calendar date and time of day without a time
/// zone. Every timestamp of the model is such a value, read as UTC. The
/// library only stores and hands on such a value; nothing is claimed of what
/// it holds.
#[verifier::external_type_specification]
#[verifier::external_body]
pub struct ExNaiveDateTime(chrono::NaiveDateTime);

/// The language a project is mostly written in.
#[derive(Debug)]
pub enum ProgrammingLanguage {
    Rust,
    Python,
    JavaScript,
    TypeScript,
    Java,
    CSharp,
    CPlusPlus,
    Go,
    /// Any language outside the closed set, by name.
    Other(String),
}

impl Clone for ProgrammingLanguage {
    fn clone(&self) -> (copy: Self)
        ensures
            copy == *self,
    {
        match self {
            ProgrammingLanguage::Rust => ProgrammingLanguage::Rust,
            ProgrammingLanguage::Python => ProgrammingLanguage::Python,
            ProgrammingLanguage::JavaScript => ProgrammingLanguage::JavaScript,
            ProgrammingLanguage::TypeScript => ProgrammingLanguage::TypeScript,
            ProgrammingLanguage::Java => ProgrammingLanguage::Java,
            ProgrammingLanguage::CSharp => ProgrammingLanguage::CSharp,
            ProgrammingLanguage::CPlusPlus => ProgrammingLanguage::CPlusPlus,
            ProgrammingLanguage::Go => ProgrammingLanguage::Go,
            ProgrammingLanguage::Other(name) => ProgrammingLanguage::Other(name.clone()),
        }
    }
}

/// A copy of an optional string.
fn clone_text(text: &Option<String>) -> (copy: Option<String>)
    ensures
        copy == *text,
{
    match text {
        Some(s) => Some(s.clone()),
        None => None,
    }
}

/// One managed software project.
#[derive(Debug)]
pub struct Project {
    /// Unique and never changed once the project exists.
    pub id: uuid::Uuid,
    pub name: String,
    pub description: Option<String>,
    pub language: ProgrammingLanguage,
    pub created_at: chrono::NaiveDateTime,
    pub updated_at: chrono::NaiveDateTime,
    pub git_url: Option<String>,
    /// Where the project lives on disk.
    pub path: String,
}

impl Clone for Project {
    fn clone(&self) -> (copy: Self)
        ensures
            copy == *self,
    {
        Project {
            id: self.id,
            name: self.name.clone(),
            description: clone_text(&self.description),
            language: self.language.clone(),
            created_at: self.created_at,
            updated_at: self.updated_at,
            git_url: clone_text(&self.git_url),
            path: self.path.clone(),
        }
    }
}

/// How far a task has come.
#[derive(Debug, Clone, Copy, PartialEq, Eq, Structural)]
pub enum TaskStatus {
    Todo,
    InProgress,
    Review,
    Done,
}

/// How urgent a task is.
#[derive(Debug, Clone, Copy, PartialEq, Eq, Structural)]
pub enum TaskPriority {
    Low,
    Medium,
    High,
    Critical,
}

/// A unit of work inside a project.
#[derive(Debug)]
pub struct Task {
    pub id: uuid::Uuid,
    pub title: String,
    pub description: Option<String>,
    pub status: TaskStatus,
    pub priority: TaskPriority,
    pub assigned_to: Option<String>,
    pub due_date: Option<chrono::NaiveDateTime>,
    pub created_at: chrono::NaiveDateTime,
    pub updated_at: chrono::NaiveDateTime,
}

impl Clone for Task {
    fn clone(&self) -> (copy: Self)
        ensures
            copy == *self,
    {
        Task {
            id: self.id,
            title: self.title.clone(),
            description: clone_text(&self.description),
            status: self.status,
            priority: self.priority,
            assigned_to: clone_text(&self.assigned_to),
            due_date: self.due_date,
            created_at: self.created_at,
            updated_at: self.updated_at,
        }
    }
}

/// The pane that the main area shows.
#[derive(Debug, Clone, Copy, PartialEq, Eq, Structural)]
pub enum Route {
    Dashboard,
    Collections,
    Articles,
    Learners,
    Reports,
}

impl Route {
    /// The title of the pane, as the header and the sidebar show it.
    pub open spec fn title_text(self) -> Seq<char> {
        match self {
            Route::Dashboard => "Dashboard"@,
            Route::Collections => "Collections"@,
            Route::Articles => "Articles"@,
            Route::Learners => "Learners"@,
            Route::Reports => "Reports"@,
        }
    }

    /// The label that stands in for the content of a pane that has none of
    /// its own yet: the title of the pane, followed by " Content".
    pub open spec fn placeholder_text(self) -> Seq<char> {
        self.title_text() + " Content"@
    }
}

/// A shortcut shown in the sidebar.
#[derive(Debug)]
pub struct QuickAccessItem {
    pub name: String,
    pub path: String,
}

impl Clone for QuickAccessItem {
    fn clone(&self) -> (copy: Self)
        ensures
            copy == *self,
    {
        QuickAccessItem { name: self.name.clone(), path: self.path.clone() }
    }
}

} // verus!
