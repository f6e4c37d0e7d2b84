//! Rendering one template by itself, outside any install.

use vstd::prelude::*;
use crate::error::ComposerError;
use crate::load_values::{
    consolidated, load_yaml_files, source_error, source_names, sources_are, ValueSource,
};
use crate::text::{absolute, directory_of, is_absolute, strings_view};
use crate::template::{render_failure, render_template, rendering, RenderView};
use crate::values::DocumentView;

verus! {

/// The arguments of the template command.
#[derive(Debug)]
pub struct Template {
    pub template: String,
    pub value_files: Vec<String>,
    pub output_file: String,
}

/// A template file as it was found: its path, which is to be absolute, and
/// its text.
#[derive(Debug)]
pub struct TemplateFile {
    pub path: String,
    pub text: String,
}

/// What the template command gives: the rendered text, and the file to
/// write it to (`None`: it is printed).
#[derive(Debug)]
pub struct Rendered {
    pub text: String,
    pub output_file: Option<String>,
}

impl Template {
    /// Renders the template against the consolidated sources.
    ///
    /// `found` is the template file, `None` where there is none at the given
    /// path; `sources` are the value sources of the command with the texts
    /// read for them. Fails with `NoTemplateFile` without a template, then
    /// with `NoTemplateValues` without value sources, then with
    /// `UnexpectedAnswer` where the path of the template file is not
    /// absolute or `sources` are not the command's own, one for one and in
    /// order, then with the failure of the first refused source, then with
    /// that of the rendering, which names the path and the cause.
    pub fn exec(&self, found: Option<&TemplateFile>, sources: &Vec<ValueSource>) -> (rendered:
        Result<Rendered, ComposerError>)
        ensures
            match found {
                None => rendered matches Err(ComposerError::NoTemplateFile),
                Some(file) => if self.value_files@.len() == 0 {
                    rendered matches Err(ComposerError::NoTemplateValues)
                } else if !absolute(file.path@) || source_names(sources@) != strings_view(
                    self.value_files@,
                ) {
                    rendered matches Err(ComposerError::UnexpectedAnswer)
                } else {
                    match consolidated(sources@, sources@.len()) {
                        Err(place) => {
                            &&& rendered matches Err(error)
                            &&& source_error(sources@[place], error)
                        },
                        Ok(entries) => match rendering(
                            directory_of(file.path@),
                            file.text@,
                            DocumentView::Mapping(entries),
                        ) {
                            RenderView::Rendered(text) => {
                                &&& rendered matches Ok(output)
                                &&& output.text@ == text
                                &&& match output.output_file {
                                    Some(path) => path@ == self.output_file@ && path@.len() > 0,
                                    None => self.output_file@.len() == 0,
                                }
                            },
                            other => {
                                &&& rendered matches Err(error)
                                &&& render_failure(other, file.path@, error)
                            },
                        },
                    }
                },
            },
    {
        let file = match found {
            Some(file) => file,
            None => {
                return Err(ComposerError::NoTemplateFile);
            },
        };
        if self.value_files.len() == 0 {
            return Err(ComposerError::NoTemplateValues);
        }
        if !is_absolute(file.path.as_str()) || !sources_are(sources, &self.value_files) {
            return Err(ComposerError::UnexpectedAnswer);
        }
        let consolidated_values = match load_yaml_files(sources) {
            Ok(values) => values,
            Err(error) => {
                return Err(error);
            },
        };
        let text = match render_template(
            file.path.as_str(),
            file.text.as_str(),
            consolidated_values,
        ) {
            Ok(text) => text,
            Err(error) => {
                return Err(error);
            },
        };
        let output_file = if self.output_file.as_str().unicode_len() == 0 {
            None
        } else {
            Some(self.output_file.clone())
        };
        Ok(Rendered { text, output_file })
    }
}

} // verus!
