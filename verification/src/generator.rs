//! The generator: owns a project root, a template root and the compiled
//! template registry, and turns one template plus a context into the text
//! of an output file together with the destination it belongs at.  Writing
//! the text to disk is the caller's step, so every decision up to the write
//! stands here.

use vstd::prelude::*;
use vstd::string::*;

use crate::context::RenderContext;
use crate::engine::engine_load_glob;
use crate::engine::engine_new;
use crate::engine::engine_render;
use crate::engine::engine_template_names;
use crate::engine::error_text;
use crate::engine::names_set;
use crate::engine::path_exists;
use crate::engine::template_names;
use crate::errors::ConstructionError;
use crate::errors::RenderError;
use crate::paths::join_paths;
use crate::paths::parent_dir;
use crate::paths::spec_join;
use crate::paths::spec_parent;
use crate::paths::str_eq;

verus! {

/// The text of one rendered file and where it belongs: the destination path
/// resolved under the project root, the directory that must exist before
/// the file can be written, and the full rendered text.
pub struct RenderedOutput {
    pub dst_path: String,
    pub parent_dir: String,
    pub contents: String,
}

/// Puts a rendered text together with its destination: the project root
/// joined with the destination path, and that path's directory part.
pub fn assemble_output(project: &str, dst: &str, contents: String) -> (r: RenderedOutput)
    ensures
        r.dst_path@ == spec_join(project@, dst@),
        r.parent_dir@ == spec_parent(spec_join(project@, dst@)),
        r.contents@ == contents@,
{
    let path = join_paths(project, dst);
    let parent = parent_dir(path.as_str());
    RenderedOutput { dst_path: path, parent_dir: parent, contents }
}

/// The resolved output is a function of the project root, the destination
/// path and the rendered text alone: two render calls that produced the
/// same text for the same root and destination fill the same file with the
/// same bytes.
pub proof fn lemma_output_deterministic(
    a: RenderedOutput,
    b: RenderedOutput,
    project: Seq<char>,
    dst: Seq<char>,
    text: Seq<char>,
)
    requires
        a.dst_path@ == spec_join(project, dst),
        a.parent_dir@ == spec_parent(spec_join(project, dst)),
        a.contents@ == text,
        b.dst_path@ == spec_join(project, dst),
        b.parent_dir@ == spec_parent(spec_join(project, dst)),
        b.contents@ == text,
    ensures
        a.dst_path@ == b.dst_path@,
        a.parent_dir@ == b.parent_dir@,
        a.contents@ == b.contents@,
{
}

/// Owns the two root directories and the compiled template registry, and
/// renders single files against a context.
pub struct Generator {
    project: String,
    template: String,
    engine: tera::Tera,
    names: Vec<String>,
}

impl Generator {
    /// The project root, under which every output path is resolved.
    pub closed spec fn project_path_spec(&self) -> Seq<char> {
        self.project@
    }

    /// The template root the registry was compiled from.
    pub closed spec fn template_path_spec(&self) -> Seq<char> {
        self.template@
    }

    /// The names under which the registry holds compiled templates.
    pub closed spec fn registry(&self) -> Set<Seq<char>> {
        template_names(self.engine)
    }

    /// The generator's name list mirrors the registry exactly.
    pub closed spec fn wf(&self) -> bool {
        self.registry() == names_set(self.names@)
    }

    /// Builds a generator: checks that both root directories exist, then
    /// discovers and compiles every file under the template root.  Nothing
    /// is written to the filesystem here.  Each failure holds the path or
    /// the report it came from; which one comes back depends on what the
    /// filesystem holds, so only the successful registry is pinned down.
    pub fn new(project_path: &str, template_path: &str) -> (r: Result<
        Generator,
        ConstructionError,
    >)
        ensures
            r matches Ok(g) ==> g.wf() && g.project_path_spec() == project_path@
                && g.template_path_spec() == template_path@,
            r matches Err(ConstructionError::ProjectDirError(p)) ==> p@ == project_path@,
            r matches Err(ConstructionError::TemplateDirError(p)) ==> p@ == template_path@,
    {
        if !path_exists(project_path) {
            return Err(ConstructionError::ProjectDirError(project_path.to_owned()));
        }
        if !path_exists(template_path) {
            return Err(ConstructionError::TemplateDirError(template_path.to_owned()));
        }
        let pattern = join_paths(template_path, "**/*");
        let mut engine = engine_new();
        match engine_load_glob(&mut engine, pattern.as_str()) {
            Err(e) => Err(ConstructionError::TemplateCompileError(error_text(&e))),
            Ok(()) => {
                let names = engine_template_names(&engine);
                Ok(
                    Generator {
                        project: project_path.to_owned(),
                        template: template_path.to_owned(),
                        engine,
                        names,
                    },
                )
            },
        }
    }

    /// The project root as given at construction.
    pub fn get_project_path(&self) -> (r: &str)
        ensures
            r@ == self.project_path_spec(),
    {
        self.project.as_str()
    }

    /// The template root as given at construction.
    pub fn get_template_path(&self) -> (r: &str)
        ensures
            r@ == self.template_path_spec(),
    {
        self.template.as_str()
    }

    /// Whether the registry holds a template of this name.
    pub fn has_template(&self, name: &str) -> (r: bool)
        requires
            self.wf(),
        ensures
            r == self.registry().contains(name@),
    {
        let ghost mapped = self.names@.map_values(|s: String| s@);
        let mut i: usize = 0;
        while i < self.names.len()
            invariant
                i <= self.names.len(),
                self.wf(),
                mapped == self.names@.map_values(|s: String| s@),
                forall|j: int| 0 <= j < i ==> (#[trigger] self.names@[j]@) != name@,
            decreases self.names.len() - i,
        {
            if str_eq(self.names[i].as_str(), name) {
                proof {
                    assert(mapped[i as int] == name@);
                    assert(mapped.contains(name@));
                    assert(names_set(self.names@).contains(name@));
                }
                return true;
            }
            i += 1;
        }
        proof {
            assert forall|j: int| 0 <= j < mapped.len() implies mapped[j] != name@ by {
                assert(self.names@[j]@ != name@);
            }
            assert(!mapped.contains(name@));
            assert(!names_set(self.names@).contains(name@));
        }
        false
    }

    /// Renders one template against a context and resolves where the text
    /// belongs under the project root.  Nothing is written here: the caller
    /// writes `contents` to `dst_path` after making sure `parent_dir`
    /// exists.  An empty source path, an empty destination path and an
    /// unknown template are rejected, in that order; past those checks the
    /// templating engine decides between the rendered text and an
    /// evaluation report.  The generator itself is left as it was, whatever
    /// comes back.
    pub fn generate_file(
        &self,
        context: &RenderContext,
        src_path: &str,
        dst_path: &str,
    ) -> (r: Result<RenderedOutput, RenderError>)
        requires
            self.wf(),
        ensures
            (r matches Err(RenderError::SrcPathError(_))) <==> src_path@.len() == 0,
            r matches Err(RenderError::SrcPathError(p)) ==> p@ == src_path@,
            (r matches Err(RenderError::DstPathError(_))) <==> (src_path@.len() > 0
                && dst_path@.len() == 0),
            r matches Err(RenderError::DstPathError(p)) ==> p@ == dst_path@,
            (r matches Err(RenderError::MissingTemplateError(_))) <==> (src_path@.len() > 0
                && dst_path@.len() > 0 && !self.registry().contains(src_path@)),
            r matches Err(RenderError::MissingTemplateError(p)) ==> p@ == src_path@,
            !(r matches Err(RenderError::IoError(_))),
            r matches Err(RenderError::TemplateEvalError(_)) ==> src_path@.len() > 0
                && dst_path@.len() > 0 && self.registry().contains(src_path@),
            r matches Ok(out) ==> src_path@.len() > 0 && dst_path@.len() > 0
                && self.registry().contains(src_path@) && out.dst_path@ == spec_join(
                self.project_path_spec(),
                dst_path@,
            ) && out.parent_dir@ == spec_parent(spec_join(self.project_path_spec(), dst_path@)),
    {
        if src_path.is_empty() {
            return Err(RenderError::SrcPathError(src_path.to_owned()));
        }
        if dst_path.is_empty() {
            return Err(RenderError::DstPathError(dst_path.to_owned()));
        }
        if !self.has_template(src_path) {
            return Err(RenderError::MissingTemplateError(src_path.to_owned()));
        }
        let ctx = context.to_engine();
        match engine_render(&self.engine, src_path, &ctx) {
            Err(e) => Err(RenderError::TemplateEvalError(error_text(&e))),
            Ok(text) => Ok(assemble_output(self.project.as_str(), dst_path, text)),
        }
    }
}

} // verus!
