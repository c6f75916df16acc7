use vstd::prelude::*;
use crate::attributes::{Attribute, attrs_view};

verus! {

/// Where spans are exported and under which service name.
pub struct Config {
    pub collector_endpoint: String,
    pub service_name: String,
}

pub open spec fn or_default(o: Option<String>, d: Seq<char>) -> Seq<char> {
    match o {
        Some(s) => s@,
        None => d,
    }
}

/// Builds the configuration from the values found for `COLLECTOR_ENDPOINT` and
/// `SERVICE_NAME`, with their defaults where a value is absent.
pub fn load_config(collector_endpoint: Option<String>, service_name: Option<String>) -> (c: Config)
    ensures
        c.collector_endpoint@ == or_default(collector_endpoint, "http://localhost:4317"@),
        c.service_name@ == or_default(service_name, "lambda_extension"@),
{
    let collector_endpoint = match collector_endpoint {
        Some(e) => e,
        None => "http://localhost:4317".to_string(),
    };
    let service_name = match service_name {
        Some(s) => s,
        None => "lambda_extension".to_string(),
    };
    Config { collector_endpoint, service_name }
}

impl Config {
    /// The resource attributes attached to every exported span.
    pub fn resource_attributes(&self) -> (r: Vec<Attribute>)
        ensures
            attrs_view(r@) == seq![("service.name"@, self.service_name@)],
    {
        let r = vec![Attribute::new("service.name", self.service_name.clone())];
        assert(attrs_view(r@) =~= seq![("service.name"@, self.service_name@)]);
        r
    }
}

} // verus!
