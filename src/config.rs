use vstd::prelude::*;

verus! {

/// Settings of a parser process, loaded once at startup.
pub struct ParserConfig {
    pub google_application_credentials: String,
    pub bucket: String,
    pub subscription_name: String,
    pub database_url: String,
    pub cdn_prefix: String,
    pub ipfs_prefix: String,
    pub num_parsers: usize,
    pub max_file_size_bytes: u32,
    /// Quality up to 100.
    pub image_quality: u8,
}

impl ParserConfig {
    /// Capacity of the work queue between the ingestion loop and the
    /// workers: two entries per worker, or `None` where that does not fit.
    pub fn queue_capacity(&self) -> (r: Option<usize>)
        ensures
            2 * self.num_parsers <= usize::MAX ==> r == Some((2 * self.num_parsers) as usize),
            2 * self.num_parsers > usize::MAX ==> r is None,
    {
        self.num_parsers.checked_mul(2)
    }

    /// Name under which the parser service runs.
    pub fn get_server_name(&self) -> (r: String)
        ensures
            r@ == "parser"@,
    {
        "parser".to_owned()
    }
}

} // verus!
