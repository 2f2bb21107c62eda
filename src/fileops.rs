use vstd::prelude::*;
use crate::text::same_text;

verus! {

/// The file operations the agent offers.
#[derive(Clone, Copy, Debug, PartialEq, Eq, Structural)]
pub enum FileOp {
    ListDir,
    ReadFile,
    WriteFile,
    DeleteFile,
    DeleteDir,
}

/// The operation a name designates, if any.
pub open spec fn file_op_named(name: Seq<char>) -> Option<FileOp> {
    if name == "list_dir"@ {
        Some(FileOp::ListDir)
    } else if name == "read_file"@ {
        Some(FileOp::ReadFile)
    } else if name == "write_file"@ {
        Some(FileOp::WriteFile)
    } else if name == "delete_file"@ {
        Some(FileOp::DeleteFile)
    } else if name == "delete_dir"@ {
        Some(FileOp::DeleteDir)
    } else {
        None
    }
}

impl FileOp {
    /// The operation named `name`, if any.
    pub fn parse(name: &str) -> (r: Option<FileOp>)
        ensures
            r == file_op_named(name@),
    {
        if same_text(name, "list_dir") {
            Some(FileOp::ListDir)
        } else if same_text(name, "read_file") {
            Some(FileOp::ReadFile)
        } else if same_text(name, "write_file") {
            Some(FileOp::WriteFile)
        } else if same_text(name, "delete_file") {
            Some(FileOp::DeleteFile)
        } else if same_text(name, "delete_dir") {
            Some(FileOp::DeleteDir)
        } else {
            None
        }
    }
}

/// Why a file operation was refused before touching the file system.
#[derive(Clone, Copy, Debug, PartialEq, Eq, Structural)]
pub enum FileOpError {
    /// The operation needs a path and none was given.
    PathRequired,
    /// The operation name is not one the agent offers.
    Unsupported,
}

impl FileOpError {
    /// The text reported to the server.
    pub fn message(&self) -> (r: String)
        ensures
            r@ == match self {
                FileOpError::PathRequired => "path required"@,
                FileOpError::Unsupported => "unsupported operation"@,
            },
    {
        match self {
            FileOpError::PathRequired => String::from_str("path required"),
            FileOpError::Unsupported => String::from_str("unsupported operation"),
        }
    }
}

/// One file-system action to perform, with everything it needs.
#[derive(Clone, Debug)]
pub enum FileRequest {
    ListDir { path: String },
    ReadFile { path: String },
    WriteFile { path: String, content: String },
    DeleteFile { path: String },
    DeleteDir { path: String },
}

/// A file request as text: the operation, its path and the content to write.
pub type FileRequestView = (FileOp, Seq<char>, Seq<char>);

impl View for FileRequest {
    type V = FileRequestView;

    open spec fn view(&self) -> FileRequestView {
        match self {
            FileRequest::ListDir { path } => (FileOp::ListDir, path@, Seq::empty()),
            FileRequest::ReadFile { path } => (FileOp::ReadFile, path@, Seq::empty()),
            FileRequest::WriteFile { path, content } => (FileOp::WriteFile, path@, content@),
            FileRequest::DeleteFile { path } => (FileOp::DeleteFile, path@, Seq::empty()),
            FileRequest::DeleteDir { path } => (FileOp::DeleteDir, path@, Seq::empty()),
        }
    }
}

/// The text of an optional string.
pub open spec fn opt_text(s: Option<String>) -> Option<Seq<char>> {
    match s {
        Some(t) => Some(t@),
        None => None,
    }
}

/// What a file-operation directive asks for: an unknown name is refused
/// whatever else is given; listing defaults to the current directory; the
/// other operations need a path; a write without content writes nothing.
pub open spec fn file_request_for(
    op: Seq<char>,
    path: Option<Seq<char>>,
    file_data: Option<Seq<char>>,
) -> Result<FileRequestView, FileOpError> {
    match file_op_named(op) {
        None => Err(FileOpError::Unsupported),
        Some(FileOp::ListDir) => Ok(
            (
                FileOp::ListDir,
                match path {
                    Some(p) => p,
                    None => "."@,
                },
                Seq::empty(),
            ),
        ),
        Some(kind) => match path {
            None => Err(FileOpError::PathRequired),
            Some(p) => Ok(
                (
                    kind,
                    p,
                    if kind == FileOp::WriteFile {
                        match file_data {
                            Some(d) => d,
                            None => Seq::empty(),
                        }
                    } else {
                        Seq::empty()
                    },
                ),
            ),
        },
    }
}

/// Turns a file-operation directive into the action to perform, or the
/// reason to refuse it. A refused directive yields no action, so it changes
/// nothing on disk.
pub fn file_operation(op: &str, path: Option<String>, file_data: Option<String>) -> (r: Result<
    FileRequest,
    FileOpError,
>)
    ensures
        match r {
            Ok(req) => file_request_for(op@, opt_text(path), opt_text(file_data)) == Ok::<
                FileRequestView,
                FileOpError,
            >(req@),
            Err(e) => file_request_for(op@, opt_text(path), opt_text(file_data)) == Err::<
                FileRequestView,
                FileOpError,
            >(e),
        },
{
    let kind = match FileOp::parse(op) {
        Some(k) => k,
        None => return Err(FileOpError::Unsupported),
    };
    match kind {
        FileOp::ListDir => {
            let p = match path {
                Some(p) => p,
                None => String::from_str("."),
            };
            Ok(FileRequest::ListDir { path: p })
        },
        _ => {
            let p = match path {
                Some(p) => p,
                None => return Err(FileOpError::PathRequired),
            };
            match kind {
                FileOp::ReadFile => Ok(FileRequest::ReadFile { path: p }),
                FileOp::WriteFile => {
                    let content = match file_data {
                        Some(d) => d,
                        None => String::new(),
                    };
                    Ok(FileRequest::WriteFile { path: p, content })
                },
                FileOp::DeleteFile => Ok(FileRequest::DeleteFile { path: p }),
                _ => Ok(FileRequest::DeleteDir { path: p }),
            }
        },
    }
}

} // verus!
