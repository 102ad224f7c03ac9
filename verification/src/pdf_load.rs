//! What a load job can end in, and how its steps combine into one result.
//!
//! Picking a file and rendering its pages happen elsewhere; the functions
//! here say which result the outcome of each step gives.

use vstd::prelude::*;
use vstd::string::StringExecFns;

verus! {

/// The size of one page bitmap as the renderer delivered it.
#[derive(Clone, Copy, Debug, PartialEq, Eq, Structural)]
pub struct RasterPage {
    pub width: u32,
    pub height: u32,
}

/// Why a document could not be loaded.
#[derive(Debug)]
pub enum PdfLoadError {
    /// No file was chosen, or the chosen file does not exist.
    FileError,
    /// The file at the path (first) could not be read or rendered; the
    /// renderer's words for it come second.
    PdfError((String, String)),
}

/// The mathematical content of a [`PdfLoadError`].
pub enum LoadErrorModel {
    FileError,
    PdfError { path: Seq<char>, cause: Seq<char> },
}

impl View for PdfLoadError {
    type V = LoadErrorModel;

    open spec fn view(&self) -> LoadErrorModel {
        match self {
            PdfLoadError::FileError => LoadErrorModel::FileError,
            PdfLoadError::PdfError(detail) => LoadErrorModel::PdfError {
                path: detail.0@,
                cause: detail.1@,
            },
        }
    }
}

impl LoadErrorModel {
    /// The sentence that tells the user of the error.
    pub open spec fn message(self) -> Seq<char> {
        match self {
            LoadErrorModel::FileError => "Could not open file"@,
            LoadErrorModel::PdfError { path, cause } => "Could not load file='"@ + path
                + "'. Pdf load error: "@ + cause,
        }
    }
}

impl PdfLoadError {
    /// The sentence that tells the user of the error.
    pub fn message(&self) -> (message: String)
        ensures
            message@ == self@.message(),
    {
        match self {
            PdfLoadError::FileError => String::from_str("Could not open file"),
            PdfLoadError::PdfError(detail) => {
                let mut message = String::from_str("Could not load file='");
                message.append(detail.0.as_str());
                message.append("'. Pdf load error: ");
                message.append(detail.1.as_str());
                message
            },
        }
    }
}

/// The file to load, given what the file dialog returned and whether that
/// file exists: a load needs a chosen file that exists.
pub fn file_selection(picked: Option<String>, exists: bool) -> (file: Result<String, PdfLoadError>)
    ensures
        file is Ok <==> picked is Some && exists,
        file is Ok ==> file->Ok_0 == picked->0,
        file is Err ==> file->Err_0@ == LoadErrorModel::FileError,
{
    match picked {
        Some(path) => {
            if exists {
                Ok(path)
            } else {
                Err(PdfLoadError::FileError)
            }
        },
        None => Err(PdfLoadError::FileError),
    }
}

/// The result of loading the file at `path`, given what rendering its
/// pages gave: the pages together with the path, or the renderer's failure
/// together with the path.
pub fn load_pdf_file<P>(path: String, rendered: Result<Vec<P>, String>) -> (result: Result<
    (String, Vec<P>),
    PdfLoadError,
>)
    ensures
        result is Ok <==> rendered is Ok,
        result is Ok ==> result->Ok_0.0 == path && result->Ok_0.1 == rendered->Ok_0,
        result is Err ==> result->Err_0@ == (LoadErrorModel::PdfError {
            path: path@,
            cause: rendered->Err_0@,
        }),
{
    match rendered {
        Ok(pdf_images) => Ok((path, pdf_images)),
        Err(cause) => Err(PdfLoadError::PdfError((path, cause))),
    }
}

} // verus!
