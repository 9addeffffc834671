use vstd::prelude::*;

verus! {

/// Server setup material in its serialized form, with the key file it was
/// loaded from or written to. It is never empty.
#[derive(Debug)]
pub struct ServerSetup {
    key_file: String,
    bytes: Vec<u8>,
}

impl ServerSetup {
    #[verifier::type_invariant]
    spec fn inv(self) -> bool {
        self.bytes@.len() > 0
    }

    /// The key file this material belongs to.
    pub closed spec fn source(self) -> Seq<char> {
        self.key_file@
    }

    /// The serialized material.
    pub closed spec fn material(self) -> Seq<u8> {
        self.bytes@
    }

    pub fn key_file(&self) -> (r: &String)
        ensures
            r@ == self.source(),
    {
        &self.key_file
    }

    /// The serialized material; never empty.
    pub fn serialized(&self) -> (r: &Vec<u8>)
        ensures
            r@ == self.material(),
            r@.len() > 0,
    {
        proof {
            use_type_invariant(self);
        }
        &self.bytes
    }
}

impl Clone for ServerSetup {
    fn clone(&self) -> (r: ServerSetup)
        ensures
            r.source() == self.source(),
            r.material() == self.material(),
    {
        proof {
            use_type_invariant(self);
        }
        ServerSetup { key_file: self.key_file.clone(), bytes: self.bytes.clone() }
    }
}

/// What must be done to obtain the key material.
#[derive(Clone, Debug, PartialEq, Eq)]
pub enum KeyRequest {
    /// Read and decode the existing file at `path`.
    Load { path: String },
    /// Generate fresh material and write it to `path`.
    Generate { path: String },
}

impl KeyRequest {
    pub open spec fn path_of(self) -> Seq<char> {
        match self {
            KeyRequest::Load { path } => path@,
            KeyRequest::Generate { path } => path@,
        }
    }

    pub fn path(&self) -> (r: &String)
        ensures
            r@ == self.path_of(),
    {
        match self {
            KeyRequest::Load { path } => path,
            KeyRequest::Generate { path } => path,
        }
    }
}

/// The step that failed while obtaining key material.
#[derive(Clone, Copy, Debug, PartialEq, Eq)]
pub enum KeyAccess {
    Read,
    Decode,
    Write,
}

/// What came back from carrying out a `KeyRequest`.
#[derive(Clone, Debug)]
pub enum KeyEvent {
    /// The serialized material: read from the file, or generated and written.
    Obtained(Vec<u8>),
    /// A step failed, with the outside error's description.
    Failed(KeyAccess, String),
}

/// A failure to obtain key material, with the file it concerns.
#[derive(Clone, Debug)]
pub struct KeyError {
    pub path: String,
    pub access: KeyAccess,
    pub detail: String,
}

/// The model of a resolution's result: the key file and the material, or the
/// failed step with the key file.
pub open spec fn key_outcome(key_file: Seq<char>, event: KeyEvent) -> Result<(Seq<char>, Seq<u8>), (Seq<char>, KeyAccess)> {
    match event {
        KeyEvent::Obtained(b) => if b@.len() > 0 {
            Ok((key_file, b@))
        } else {
            Err((key_file, KeyAccess::Decode))
        },
        KeyEvent::Failed(a, _) => Err((key_file, a)),
    }
}

/// Decides how to obtain key material for `key_file`, given whether a file
/// exists there.
pub fn key_request(key_file: &String, file_exists: bool) -> (r: KeyRequest)
    ensures
        r.path_of() == key_file@,
        r is Load <==> file_exists,
{
    if file_exists {
        KeyRequest::Load { path: key_file.clone() }
    } else {
        KeyRequest::Generate { path: key_file.clone() }
    }
}

/// Turns what came back from the request for `key_file` into key material
/// or an error naming the file and the failed step. Empty material does not
/// decode.
pub fn resolve_key_material(key_file: &String, event: KeyEvent) -> (r: Result<ServerSetup, KeyError>)
    ensures
        match (r, key_outcome(key_file@, event)) {
            (Ok(s), Ok((p, b))) => s.source() == p && s.material() == b,
            (Err(e), Err((p, a))) => e.path@ == p && e.access == a,
            _ => false,
        },
        event matches KeyEvent::Failed(_, d) ==> (r matches Err(e) && e.detail@ == d@),
{
    let path = key_file.clone();
    match event {
        KeyEvent::Obtained(bytes) => {
            if bytes.len() > 0 {
                Ok(ServerSetup { key_file: path, bytes })
            } else {
                Err(KeyError { path, access: KeyAccess::Decode, detail: "empty key material".to_owned() })
            }
        },
        KeyEvent::Failed(access, detail) => Err(KeyError { path, access, detail }),
    }
}

} // verus!
