//! The directory in which the node keeps its data.

use crate::error::Error;
use crate::error::Res;
use vstd::prelude::*;

verus! {

/// The data directory of the node, known to exist.
#[derive(Clone, Debug, PartialEq, Eq)]
pub struct Directory {
    root: String,
}

impl View for Directory {
    type V = Seq<char>;

    closed spec fn view(&self) -> Seq<char> {
        self.root@
    }
}

impl Directory {
    /// Takes the data directory into use. `located` is the path that the
    /// platform assigns to this application, if it assigns one; `exists`
    /// tells whether that directory is there after the attempt to create it.
    ///
    /// Fails with `FailedToFindLocation` exactly when no path is assigned
    /// or the directory is not there.
    pub fn create_or_load(located: Option<String>, exists: bool) -> (directory: Res<Directory>)
        ensures
            match directory {
                Ok(directory) => exists && located is Some && directory@ == located->Some_0@,
                Err(error) => error == Error::FailedToFindLocation && (located is None || !exists),
            },
    {
        let root = match located {
            Some(root) => root,
            None => {
                return Err(Error::FailedToFindLocation);
            },
        };
        if !exists {
            return Err(Error::FailedToFindLocation);
        }
        Ok(Directory { root })
    }

    /// The path of the directory.
    pub fn get(&self) -> (root: String)
        ensures
            root@ == self@,
    {
        self.root.clone()
    }

    /// The path of the directory, borrowed.
    pub fn get_ref(&self) -> (root: &str)
        ensures
            root@ == self@,
    {
        self.root.as_str()
    }
}

} // verus!
