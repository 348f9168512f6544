//! Session configuration: the default namespace and engine tuning.
use vstd::prelude::*;

verus! {

/// A session's configuration. It is replaced as a whole, never field by field.
pub struct EllaConfig {
    default_catalog: String,
    default_schema: String,
    maintenance_interval_secs: u64,
    serve_metrics: bool,
}

pub struct ConfigModel {
    pub default_catalog: Seq<char>,
    pub default_schema: Seq<char>,
    pub maintenance_interval_secs: u64,
    pub serve_metrics: bool,
}

impl View for EllaConfig {
    type V = ConfigModel;

    closed spec fn view(&self) -> ConfigModel {
        ConfigModel {
            default_catalog: self.default_catalog@,
            default_schema: self.default_schema@,
            maintenance_interval_secs: self.maintenance_interval_secs,
            serve_metrics: self.serve_metrics,
        }
    }
}

impl EllaConfig {
    pub fn new(default_catalog: &str, default_schema: &str) -> (r: EllaConfig)
        ensures
            r@.default_catalog == default_catalog@,
            r@.default_schema == default_schema@,
            r@.maintenance_interval_secs == 60,
            !r@.serve_metrics,
    {
        EllaConfig {
            default_catalog: default_catalog.to_owned(),
            default_schema: default_schema.to_owned(),
            maintenance_interval_secs: 60,
            serve_metrics: false,
        }
    }

    pub fn default_catalog(&self) -> (r: &String)
        ensures
            r@ == self@.default_catalog,
    {
        &self.default_catalog
    }

    pub fn default_schema(&self) -> (r: &String)
        ensures
            r@ == self@.default_schema,
    {
        &self.default_schema
    }

    pub fn maintenance_interval_secs(&self) -> (r: u64)
        ensures
            r == self@.maintenance_interval_secs,
    {
        self.maintenance_interval_secs
    }

    pub fn serve_metrics(&self) -> (r: bool)
        ensures
            r == self@.serve_metrics,
    {
        self.serve_metrics
    }

    /// The same configuration with another default catalog.
    pub fn with_default_catalog(self, catalog: &String) -> (r: EllaConfig)
        ensures
            r@ == (ConfigModel { default_catalog: catalog@, ..self@ }),
    {
        EllaConfig { default_catalog: catalog.clone(), ..self }
    }

    /// The same configuration with another default schema.
    pub fn with_default_schema(self, schema: &String) -> (r: EllaConfig)
        ensures
            r@ == (ConfigModel { default_schema: schema@, ..self@ }),
    {
        EllaConfig { default_schema: schema.clone(), ..self }
    }

    /// The same configuration with another maintenance interval.
    pub fn with_maintenance_interval_secs(self, secs: u64) -> (r: EllaConfig)
        ensures
            r@ == (ConfigModel { maintenance_interval_secs: secs, ..self@ }),
    {
        EllaConfig { maintenance_interval_secs: secs, ..self }
    }

    /// The same configuration, with the metrics server switched on or off.
    pub fn with_serve_metrics(self, serve: bool) -> (r: EllaConfig)
        ensures
            r@ == (ConfigModel { serve_metrics: serve, ..self@ }),
    {
        EllaConfig { serve_metrics: serve, ..self }
    }

    pub fn duplicate(&self) -> (r: EllaConfig)
        ensures
            r@ == self@,
    {
        EllaConfig {
            default_catalog: self.default_catalog.clone(),
            default_schema: self.default_schema.clone(),
            maintenance_interval_secs: self.maintenance_interval_secs,
            serve_metrics: self.serve_metrics,
        }
    }
}

} // verus!
