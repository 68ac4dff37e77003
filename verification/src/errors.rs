//! The error taxonomy of the library: what construction of a generator can
//! report, and what a single render call can report.

use vstd::prelude::*;
use vstd::string::*;

verus! {

/// A failure of `Generator::new`: one of the two root directories is missing,
/// or a discovered template did not compile.
#[derive(Debug)]
pub enum ConstructionError {
    /// The project root does not exist; holds the path that was given.
    ProjectDirError(String),
    /// The template root does not exist; holds the path that was given.
    TemplateDirError(String),
    /// The templating engine rejected a discovered template; holds its report.
    TemplateCompileError(String),
}

/// A failure of a single render call.  The generator stays usable after any
/// of these.
#[derive(Debug)]
pub enum RenderError {
    /// The source path is empty; holds the path that was given.
    SrcPathError(String),
    /// The destination path is empty; holds the path that was given.
    DstPathError(String),
    /// The source path names no compiled template; holds that path.
    MissingTemplateError(String),
    /// The templating engine failed to evaluate the template; holds its report.
    TemplateEvalError(String),
    /// The rendered text could not be written out; holds a description.
    IoError(String),
}

impl ConstructionError {
    /// The text that describes this failure to a human.
    pub fn message(&self) -> (r: String)
        ensures
            match self {
                ConstructionError::ProjectDirError(d) => r@ == "Invalid project dir: '"@ + d@
                    + "'"@,
                ConstructionError::TemplateDirError(d) => r@ == "Invalid template dir: '"@ + d@
                    + "'"@,
                ConstructionError::TemplateCompileError(d) => r@ == "Failed to compile templates: "@
                    + d@,
            },
    {
        match self {
            ConstructionError::ProjectDirError(d) => {
                let mut s = String::from_str("Invalid project dir: '");
                s.append(d.as_str());
                s.append("'");
                s
            },
            ConstructionError::TemplateDirError(d) => {
                let mut s = String::from_str("Invalid template dir: '");
                s.append(d.as_str());
                s.append("'");
                s
            },
            ConstructionError::TemplateCompileError(d) => {
                let mut s = String::from_str("Failed to compile templates: ");
                s.append(d.as_str());
                s
            },
        }
    }
}

impl RenderError {
    /// The text that describes this failure to a human.
    pub fn message(&self) -> (r: String)
        ensures
            match self {
                RenderError::SrcPathError(d) => r@ == "Invalid src path: '"@ + d@ + "'"@,
                RenderError::DstPathError(d) => r@ == "Invalid dst path: '"@ + d@ + "'"@,
                RenderError::MissingTemplateError(d) => r@ == "Missing template: '"@ + d@ + "'"@,
                RenderError::TemplateEvalError(d) => r@ == "Failed to render template: "@ + d@,
                RenderError::IoError(d) => r@ == "Failed to write file: "@ + d@,
            },
    {
        match self {
            RenderError::SrcPathError(d) => {
                let mut s = String::from_str("Invalid src path: '");
                s.append(d.as_str());
                s.append("'");
                s
            },
            RenderError::DstPathError(d) => {
                let mut s = String::from_str("Invalid dst path: '");
                s.append(d.as_str());
                s.append("'");
                s
            },
            RenderError::MissingTemplateError(d) => {
                let mut s = String::from_str("Missing template: '");
                s.append(d.as_str());
                s.append("'");
                s
            },
            RenderError::TemplateEvalError(d) => {
                let mut s = String::from_str("Failed to render template: ");
                s.append(d.as_str());
                s
            },
            RenderError::IoError(d) => {
                let mut s = String::from_str("Failed to write file: ");
                s.append(d.as_str());
                s
            },
        }
    }
}

} // verus!
