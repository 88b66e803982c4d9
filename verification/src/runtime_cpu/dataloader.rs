//! Loading data: where it comes from and what format it has.

use vstd::prelude::*;
use vstd::string::StringExecFns;
use crate::text::{extension_of, path_extension, str_eq};

verus! {

/// How data is loaded.
#[derive(Debug, Clone)]
pub struct LoaderConfig {
    /// Rows of a batch.
    pub batch_size: usize,
    /// Batches fetched ahead.
    pub prefetch_count: usize,
    /// Workers that load side by side.
    pub num_workers: usize,
    /// Whether large files are mapped into memory.
    pub memory_map: bool,
    /// Size of the I/O buffer, in bytes.
    pub io_buffer_size: usize,
}

impl Default for LoaderConfig {
    fn default() -> (c: LoaderConfig)
        ensures
            c.batch_size == 1024,
            c.prefetch_count == 4,
            c.num_workers == 4,
            c.memory_map,
            c.io_buffer_size == 8388608,
    {
        LoaderConfig { batch_size: 1024, prefetch_count: 4, num_workers: 4, memory_map: true, io_buffer_size: 8388608 }
    }
}

/// Where data comes from.
#[derive(Debug, Clone)]
pub enum DataSource {
    /// One file.
    File(String),
    /// The files of a directory.
    Directory(String),
    /// Bytes in memory.
    Memory(Vec<u8>),
}

impl DataSource {
    /// The source of a path that was looked at: a directory where it is
    /// one, else a file.
    pub fn from_path(path: &str, is_dir: bool) -> (s: Self)
        ensures
            is_dir ==> s is Directory && s->Directory_0@ == path@,
            !is_dir ==> s is File && s->File_0@ == path@,
    {
        if is_dir {
            DataSource::Directory(String::from_str(path))
        } else {
            DataSource::File(String::from_str(path))
        }
    }
}

/// The format of a file.
#[derive(Debug, Clone, Copy, PartialEq, Eq, Structural)]
pub enum FileFormat {
    /// Apache Parquet.
    Parquet,
    /// Comma- or tab-separated values.
    Csv,
    /// Apache Arrow IPC.
    ArrowIpc,
    /// JSON, one value per line.
    JsonLines,
    /// None of these.
    Unknown,
}

impl FileFormat {
    /// The format that an extension names. Upper and lower case differ.
    pub open spec fn of_extension(ext: Option<Seq<char>>) -> FileFormat {
        match ext {
            Some(e) => if e == "parquet"@ || e == "pq"@ {
                FileFormat::Parquet
            } else if e == "csv"@ || e == "tsv"@ {
                FileFormat::Csv
            } else if e == "arrow"@ || e == "feather"@ {
                FileFormat::ArrowIpc
            } else if e == "jsonl"@ || e == "ndjson"@ {
                FileFormat::JsonLines
            } else {
                FileFormat::Unknown
            },
            None => FileFormat::Unknown,
        }
    }

    /// The format that an extension names.
    pub fn for_extension(ext: Option<&str>) -> (f: FileFormat)
        ensures
            f == Self::of_extension(
                match ext {
                    Some(e) => Some(e@),
                    None => None,
                },
            ),
    {
        match ext {
            Some(e) => {
                if str_eq(e, "parquet") || str_eq(e, "pq") {
                    FileFormat::Parquet
                } else if str_eq(e, "csv") || str_eq(e, "tsv") {
                    FileFormat::Csv
                } else if str_eq(e, "arrow") || str_eq(e, "feather") {
                    FileFormat::ArrowIpc
                } else if str_eq(e, "jsonl") || str_eq(e, "ndjson") {
                    FileFormat::JsonLines
                } else {
                    FileFormat::Unknown
                }
            },
            None => FileFormat::Unknown,
        }
    }

    /// The format that the extension of a path names.
    pub fn from_extension(path: &str) -> (f: FileFormat)
        ensures
            f == Self::of_extension(path_extension(path@)),
    {
        match extension_of(path) {
            Some(ext) => Self::for_extension(Some(ext.as_str())),
            None => Self::for_extension(None),
        }
    }

    /// Whether the loader reads the format.
    pub fn is_loadable(self) -> (r: bool)
        ensures
            r == (self == FileFormat::Parquet || self == FileFormat::Csv || self == FileFormat::ArrowIpc),
    {
        match self {
            FileFormat::Parquet | FileFormat::Csv | FileFormat::ArrowIpc => true,
            _ => false,
        }
    }
}

/// What goes wrong with loading.
#[derive(Debug)]
pub enum DataLoaderError {
    /// Input and output.
    Io(String),
    /// The data could not be read as its format.
    Parse(String),
    /// The format is not read.
    UnsupportedFormat(String),
    /// There is no data.
    Empty(String),
    /// The configuration is wrong.
    Config(String),
}

impl DataLoaderError {
    /// The error as a sentence.
    pub open spec fn spec_message(&self) -> Seq<char> {
        match self {
            DataLoaderError::Io(m) => "I/O error: "@ + m@,
            DataLoaderError::Parse(m) => "Parse error: "@ + m@,
            DataLoaderError::UnsupportedFormat(m) => "Unsupported format: "@ + m@,
            DataLoaderError::Empty(m) => "Empty source: "@ + m@,
            DataLoaderError::Config(m) => "Configuration error: "@ + m@,
        }
    }

    /// The error as a sentence.
    pub fn message(&self) -> (s: String)
        ensures
            s@ == self.spec_message(),
    {
        let (head, tail) = match self {
            DataLoaderError::Io(m) => ("I/O error: ", m),
            DataLoaderError::Parse(m) => ("Parse error: ", m),
            DataLoaderError::UnsupportedFormat(m) => ("Unsupported format: ", m),
            DataLoaderError::Empty(m) => ("Empty source: ", m),
            DataLoaderError::Config(m) => ("Configuration error: ", m),
        };
        let mut s = String::from_str(head);
        s.append(tail.as_str());
        s
    }

    /// The error for a file whose format is not read.
    pub fn unknown_format(path: &str) -> (e: DataLoaderError)
        ensures
            e is UnsupportedFormat,
            e->UnsupportedFormat_0@ == "Unknown format for: "@ + path@,
    {
        let mut s = String::from_str("Unknown format for: ");
        s.append(path);
        DataLoaderError::UnsupportedFormat(s)
    }
}

} // verus!
