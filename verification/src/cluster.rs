use vstd::prelude::*;

use crate::error::{Error, RuntimeError};
use crate::text::{decimal, u64_to_decimal};

verus! {

/// The Citus image that a test cluster runs by default.
pub const DEFAULT_CITUS_IMAGE: &'static str = "citusdata/citus";

/// The tag of the default Citus image.
pub const DEFAULT_CITUS_TAG: &'static str = "13.0.3-alpine";

/// The database user of a test cluster.
pub const DEFAULT_POSTGRES_USER: &'static str = "postgres";

/// Errors in using a test database.
pub enum TestDatabaseError {
    Connect(String),
}

impl TestDatabaseError {
    /// The message of the error.
    pub fn to_display_string(&self) -> (r: String)
        ensures
            r@ == match self {
                TestDatabaseError::Connect(m) => "Could not connect to test database: "@ + m@,
            },
    {
        match self {
            TestDatabaseError::Connect(m) => {
                let mut s = "Could not connect to test database: ".to_owned();
                s.append(m.as_str());
                proof {
                    reveal_strlit("Could not connect to test database: ");
                }
                s
            },
        }
    }

    /// The library error for this one: a runtime error with its message.
    pub fn to_error(&self) -> (r: Error)
        ensures
            r matches Error::Runtime(e) && e.msg@ == match self {
                TestDatabaseError::Connect(m) => "Could not connect to test database: "@ + m@,
            },
    {
        Error::Runtime(RuntimeError::from_msg(self.to_display_string()))
    }
}

/// The connection settings of a test database as environment variables for `psql` and
/// the other PostgreSQL clients: host, port, database and user.
pub fn test_database_env(host: &str, port: u16, database: &str, user: &str) -> (r: Vec<(String, String)>)
    ensures
        r@.len() == 4,
        r@[0].0@ == "PGHOST"@ && r@[0].1@ == host@,
        r@[1].0@ == "PGPORT"@ && r@[1].1@ == decimal(port as nat),
        r@[2].0@ == "PGDATABASE"@ && r@[2].1@ == database@,
        r@[3].0@ == "PGUSER"@ && r@[3].1@ == user@,
{
    let mut v: Vec<(String, String)> = Vec::new();
    v.push(("PGHOST".to_owned(), host.to_owned()));
    v.push(("PGPORT".to_owned(), u64_to_decimal(port as u64)));
    v.push(("PGDATABASE".to_owned(), database.to_owned()));
    v.push(("PGUSER".to_owned(), user.to_owned()));
    proof {
        reveal_strlit("PGHOST");
        reveal_strlit("PGPORT");
        reveal_strlit("PGDATABASE");
        reveal_strlit("PGUSER");
    }
    v
}

/// A reference to a container image, by name and tag.
pub struct ImageRef {
    pub image_name: String,
    pub image_tag: String,
}

impl ImageRef {
    /// How the reference is written: `name:tag`.
    pub fn to_display_string(&self) -> (r: String)
        ensures
            r@ == self.image_name@ + ":"@ + self.image_tag@,
    {
        let mut s = self.image_name.clone();
        s.append(":");
        s.append(self.image_tag.as_str());
        proof {
            reveal_strlit(":");
        }
        s
    }
}

/// What provides the image of a test cluster.
pub trait ImageProvider {
    fn image(&self) -> ImageRef;
}

/// Provides an image given by name and tag.
pub struct FixedImageProvider {
    pub image_name: String,
    pub image_tag: String,
}

impl ImageProvider for FixedImageProvider {
    fn image(&self) -> (r: ImageRef)
        ensures
            r.image_name@ == self.image_name@,
            r.image_tag@ == self.image_tag@,
    {
        ImageRef { image_name: self.image_name.clone(), image_tag: self.image_tag.clone() }
    }
}

impl Default for FixedImageProvider {
    fn default() -> (r: FixedImageProvider)
        ensures
            r.image_name@ == DEFAULT_CITUS_IMAGE@,
            r.image_tag@ == DEFAULT_CITUS_TAG@,
    {
        FixedImageProvider {
            image_name: DEFAULT_CITUS_IMAGE.to_owned(),
            image_tag: DEFAULT_CITUS_TAG.to_owned(),
        }
    }
}

/// Provides an image that is built from a definition file and tagged with the given
/// name and tag.
pub struct BuildImageProvider {
    pub definition_file: String,
    pub image_name: String,
    pub image_tag: String,
}

impl BuildImageProvider {
    /// The reference under which the built image is tagged.
    pub fn image_ref(&self) -> (r: ImageRef)
        ensures
            r.image_name@ == self.image_name@,
            r.image_tag@ == self.image_tag@,
    {
        ImageRef { image_name: self.image_name.clone(), image_tag: self.image_tag.clone() }
    }
}

/// The configuration of a test cluster: where its image comes from, the PostgreSQL
/// configuration file, the number of worker nodes and the prefix of its containers'
/// names.
pub struct MinervaClusterConfig {
    pub image_provider: Box<dyn ImageProvider>,
    pub config_file: String,
    pub worker_count: u8,
    pub prefix: String,
}

} // verus!
