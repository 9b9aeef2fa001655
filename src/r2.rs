use vstd::prelude::*;
use crate::text::push_text;

verus! {

/// Base of the account REST interface.
pub const CLOUDFLARE_API: &'static str = "https://api.cloudflare.com/client/v4/";

/// Why credentials or a setting could not be had.
#[derive(Debug, PartialEq, Eq)]
pub enum ConfigError {
    /// A required key is absent.
    MissingKey { key: String },
    /// The operation needs a bucket and none is set.
    NoBucket,
}

/// The value stored last under `key`, as a map built by inserting the pairs in
/// order holds it.
pub open spec fn lookup_of(config: Seq<(String, String)>, key: Seq<char>) -> Option<Seq<char>>
    decreases config.len(),
{
    if config.len() == 0 {
        None
    } else if config.last().0@ == key {
        Some(config.last().1@)
    } else {
        lookup_of(config.drop_last(), key)
    }
}

/// The value of `key` in a configuration of key/value pairs; the last pair
/// with that key counts.
pub fn get_from_config(config: &Vec<(String, String)>, key: &str) -> (r: Result<String, ConfigError>)
    ensures
        match lookup_of(config@, key@) {
            Some(v) => r matches Ok(s) && s@ == v,
            None => r matches Err(ConfigError::MissingKey { key: k }) && k@ == key@,
        },
{
    let wanted = String::from_str(key);
    let mut i: usize = config.len();
    assert(config@.take(i as int) =~= config@);
    while i > 0
        invariant
            i <= config@.len(),
            wanted@ == key@,
            lookup_of(config@, key@) == lookup_of(config@.take(i as int), key@),
        decreases i,
    {
        assert(config@.take(i as int).drop_last() =~= config@.take(i - 1));
        if config[i - 1].0 == wanted {
            return Ok(config[i - 1].1.clone());
        }
        i = i - 1;
    }
    Err(ConfigError::MissingKey { key: wanted })
}

/// Account credentials and the default bucket.
#[derive(Debug, Clone, PartialEq, Eq)]
pub struct R2D2 {
    account_id: String,
    apikey: String,
    aws_access_key_id: Option<String>,
    aws_secret_access_key: Option<String>,
    pub bucket: Option<String>,
}

/// What connecting to the bucket's object store takes.
#[derive(Debug, Clone, PartialEq, Eq)]
pub struct BackendSettings {
    pub account_id: String,
    pub key_id: String,
    pub secret: String,
    pub bucket: String,
    pub endpoint: String,
}

pub open spec fn opt_view(o: Option<String>) -> Option<Seq<char>> {
    match o {
        Some(s) => Some(s@),
        None => None,
    }
}

pub open spec fn endpoint_of(account_id: Seq<char>) -> Seq<char> {
    "https://"@ + account_id + ".r2.cloudflarestorage.com"@
}

fn optional(config: &Vec<(String, String)>, key: &str) -> (r: Option<String>)
    ensures
        opt_view(r) == lookup_of(config@, key@),
{
    match get_from_config(config, key) {
        Ok(v) => Some(v),
        Err(_) => None,
    }
}

fn or_empty(o: &Option<String>) -> (r: String)
    ensures
        r@ == match opt_view(*o) {
            Some(s) => s,
            None => Seq::empty(),
        },
{
    match o {
        Some(s) => s.clone(),
        None => String::new(),
    }
}

impl R2D2 {
    pub fn new(
        account_id: String,
        apikey: String,
        aws_access_key_id: Option<String>,
        aws_secret_access_key: Option<String>,
        bucket: Option<String>,
    ) -> (r: R2D2)
        ensures
            r.account_id() == account_id@,
            r.apikey() == apikey@,
            r.key_id() == opt_view(aws_access_key_id),
            r.secret() == opt_view(aws_secret_access_key),
            r.configured_bucket() == opt_view(bucket),
    {
        R2D2 { account_id, apikey, aws_access_key_id, aws_secret_access_key, bucket }
    }

    pub closed spec fn account_id(&self) -> Seq<char> {
        self.account_id@
    }

    pub closed spec fn apikey(&self) -> Seq<char> {
        self.apikey@
    }

    pub closed spec fn key_id(&self) -> Option<Seq<char>> {
        opt_view(self.aws_access_key_id)
    }

    pub closed spec fn configured_bucket(&self) -> Option<Seq<char>> {
        opt_view(self.bucket)
    }

    pub closed spec fn secret(&self) -> Option<Seq<char>> {
        opt_view(self.aws_secret_access_key)
    }

    /// Credentials from configuration pairs (a config file or the environment):
    /// `R2_ACCOUNT_ID` and `R2_API_KEY` are required, the bucket and the
    /// access key pair are optional.
    pub fn from_config(config: &Vec<(String, String)>) -> (r: Result<R2D2, ConfigError>)
        ensures
            lookup_of(config@, "R2_ACCOUNT_ID"@) is None ==> (r matches Err(ConfigError::MissingKey { key: k })
                && k@ == "R2_ACCOUNT_ID"@),
            lookup_of(config@, "R2_ACCOUNT_ID"@) is Some && lookup_of(config@, "R2_API_KEY"@) is None
                ==> (r matches Err(ConfigError::MissingKey { key: k }) && k@ == "R2_API_KEY"@),
            r is Ok <==> lookup_of(config@, "R2_ACCOUNT_ID"@) is Some && lookup_of(config@, "R2_API_KEY"@) is Some,
            r matches Ok(c) ==> {
                &&& Some(c.account_id()) == lookup_of(config@, "R2_ACCOUNT_ID"@)
                &&& Some(c.apikey()) == lookup_of(config@, "R2_API_KEY"@)
                &&& c.configured_bucket() == lookup_of(config@, "R2_BUCKET"@)
                &&& c.key_id() == lookup_of(config@, "R2_ACCESS_KEY_ID"@)
                &&& c.secret() == lookup_of(config@, "R2_SECRET_ACCESS_KEY"@)
            },
    {
        let account_id = get_from_config(config, "R2_ACCOUNT_ID")?;
        let apikey = get_from_config(config, "R2_API_KEY")?;
        Ok(R2D2 {
            account_id,
            apikey,
            bucket: optional(config, "R2_BUCKET"),
            aws_access_key_id: optional(config, "R2_ACCESS_KEY_ID"),
            aws_secret_access_key: optional(config, "R2_SECRET_ACCESS_KEY"),
        })
    }

    /// The bucket given, else the configured one.
    pub fn bucket_or(&self, bucket: &Option<String>) -> (r: Result<String, ConfigError>)
        ensures
            match (opt_view(*bucket), self.configured_bucket()) {
                (Some(b), _) => r matches Ok(s) && s@ == b,
                (None, Some(b)) => r matches Ok(s) && s@ == b,
                (None, None) => r == Err::<String, ConfigError>(ConfigError::NoBucket),
            },
    {
        match bucket {
            Some(b) => Ok(b.clone()),
            None => match &self.bucket {
                Some(b) => Ok(b.clone()),
                None => Err(ConfigError::NoBucket),
            },
        }
    }

    pub fn set_bucket(&mut self, bucket: Option<String>)
        ensures
            final(self).configured_bucket() == opt_view(bucket),
            final(self).account_id() == old(self).account_id(),
            final(self).apikey() == old(self).apikey(),
            final(self).key_id() == old(self).key_id(),
            final(self).secret() == old(self).secret(),
    {
        self.bucket = bucket;
    }

    /// The account's object-store endpoint.
    pub fn endpoint_url(&self) -> (r: String)
        ensures
            r@ == endpoint_of(self.account_id()),
    {
        let mut r = String::from_str("https://");
        push_text(&mut r, self.account_id.as_str());
        push_text(&mut r, ".r2.cloudflarestorage.com");
        r
    }

    /// What the object store of the configured bucket is reached with; absent
    /// keys and bucket are empty.
    pub fn backend_settings(&self) -> (r: BackendSettings)
        ensures
            r.account_id@ == self.account_id(),
            r.key_id@ == (match self.key_id() { Some(s) => s, None => Seq::empty() }),
            r.secret@ == (match self.secret() { Some(s) => s, None => Seq::empty() }),
            r.bucket@ == (match self.configured_bucket() { Some(s) => s, None => Seq::empty() }),
            r.endpoint@ == endpoint_of(self.account_id()),
    {
        BackendSettings {
            account_id: self.account_id.clone(),
            key_id: or_empty(&self.aws_access_key_id),
            secret: or_empty(&self.aws_secret_access_key),
            bucket: or_empty(&self.bucket),
            endpoint: self.endpoint_url(),
        }
    }

    /// The authorization header value for the REST interface.
    pub fn bearer(&self) -> (r: String)
        ensures
            r@ == "Bearer "@ + self.apikey(),
    {
        let mut r = String::from_str("Bearer ");
        push_text(&mut r, self.apikey.as_str());
        r
    }

    /// Base URL and relative path of a REST endpoint: one starting with '/'
    /// is taken from the interface root, any other from the account's storage
    /// section.
    pub fn api_target(&self, endpoint: &str) -> (r: (String, String))
        ensures
            endpoint@.len() > 0 && endpoint@[0] == '/' ==> r.0@ == CLOUDFLARE_API@ && r.1@ == endpoint@.drop_first(),
            !(endpoint@.len() > 0 && endpoint@[0] == '/') ==> r.0@ == CLOUDFLARE_API@ + "accounts/"@ + self.account_id() + "/r2/"@
                && r.1@ == endpoint@,
    {
        let n = endpoint.unicode_len();
        if n > 0 && endpoint.get_char(0) == '/' {
            let rest = endpoint.substring_char(1, n);
            assert(rest@ =~= endpoint@.drop_first());
            (String::from_str(CLOUDFLARE_API), String::from_str(rest))
        } else {
            let mut base = String::from_str(CLOUDFLARE_API);
            push_text(&mut base, "accounts/");
            push_text(&mut base, self.account_id.as_str());
            push_text(&mut base, "/r2/");
            (base, String::from_str(endpoint))
        }
    }
}

/// The REST path of a bucket, or of a resource below it.
pub fn bucket_path(bucket: &str, sub: Option<&str>) -> (r: String)
    ensures
        r@ == "buckets/"@ + bucket@ + match sub {
            Some(p) => "/"@ + p@,
            None => Seq::empty(),
        },
{
    let mut r = String::from_str("buckets/");
    push_text(&mut r, bucket);
    match sub {
        Some(p) => {
            push_text(&mut r, "/");
            push_text(&mut r, p);
        },
        None => {},
    }
    r
}

} // verus!
