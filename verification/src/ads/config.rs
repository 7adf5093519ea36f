use vstd::prelude::*;
use crate::ads::format::{spec_test_unit_id, test_unit_id, AdFormat};

verus! {

/// The unit id configured for a format: the last entry for it, if any.
pub open spec fn configured_unit(entries: Seq<(AdFormat, String)>, format: AdFormat) -> Option<Seq<char>>
    decreases entries.len(),
{
    if entries.len() == 0 {
        None
    } else if entries.last().0 == format {
        Some(entries.last().1@)
    } else {
        configured_unit(entries.drop_last(), format)
    }
}

/// The unit id requested for a format: Google's test unit under test ads or
/// when the format has no non-empty configured id, the configured id otherwise.
pub open spec fn resolved_unit(use_test_ads: bool, entries: Seq<(AdFormat, String)>, format: AdFormat) -> Seq<char> {
    if use_test_ads {
        spec_test_unit_id(format)
    } else {
        match configured_unit(entries, format) {
            Some(id) => if id.len() > 0 { id } else { spec_test_unit_id(format) },
            None => spec_test_unit_id(format),
        }
    }
}

/// Ad configuration. The SDK starts on the first frame a configuration exists.
#[derive(Clone, Debug)]
pub struct AdmobConfig {
    /// Ad unit id per format; the last entry for a format wins. A format with
    /// no entry falls back to the Google test unit.
    pub unit_ids: Vec<(AdFormat, String)>,
    /// Device ids to treat as test devices.
    pub test_device_ids: Vec<String>,
    /// Force Google's official test unit ids for every format, ignoring
    /// `unit_ids`. Keep this on in dev; turn it off for release builds.
    pub use_test_ads: bool,
}

impl Default for AdmobConfig {
    fn default() -> (config: Self)
        ensures
            config.unit_ids@.len() == 0,
            config.test_device_ids@.len() == 0,
            !config.use_test_ads,
    {
        AdmobConfig { unit_ids: Vec::new(), test_device_ids: Vec::new(), use_test_ads: false }
    }
}

impl AdmobConfig {
    /// A config that serves Google's official test ads for every format.
    pub fn test_ads() -> (config: Self)
        ensures
            config.unit_ids@.len() == 0,
            config.test_device_ids@.len() == 0,
            config.use_test_ads,
    {
        AdmobConfig { unit_ids: Vec::new(), test_device_ids: Vec::new(), use_test_ads: true }
    }

    /// Set the ad unit id for one format (builder-style).
    pub fn with_unit(self, format: AdFormat, unit_id: &str) -> (config: Self)
        ensures
            config.use_test_ads == self.use_test_ads,
            config.test_device_ids@ == self.test_device_ids@,
            configured_unit(config.unit_ids@, format) == Some(unit_id@),
            forall|f: AdFormat| f != format ==> configured_unit(config.unit_ids@, f)
                == configured_unit(self.unit_ids@, f),
    {
        let mut config = self;
        config.unit_ids.push((format, String::from_str(unit_id)));
        proof {
            assert(config.unit_ids@.drop_last() =~= self.unit_ids@);
        }
        config
    }

    /// The configured id for a format, if any.
    pub fn unit_for(&self, format: AdFormat) -> (id: Option<&String>)
        ensures
            match id {
                Some(s) => configured_unit(self.unit_ids@, format) == Some(s@),
                None => configured_unit(self.unit_ids@, format) is None,
            },
    {
        let mut i = self.unit_ids.len();
        assert(self.unit_ids@.take(i as int) =~= self.unit_ids@);
        while i > 0
            invariant
                i <= self.unit_ids@.len(),
                configured_unit(self.unit_ids@, format) == configured_unit(self.unit_ids@.take(i as int), format),
            decreases i,
        {
            let entry = &self.unit_ids[i - 1];
            let ghost prefix = self.unit_ids@.take(i as int);
            assert(prefix.drop_last() =~= self.unit_ids@.take(i - 1));
            if entry.0 == format {
                return Some(&entry.1);
            }
            i = i - 1;
        }
        None
    }

    /// The effective unit id to request for `format`: the configured id, or
    /// the Google test unit when test ads are forced or the format has no
    /// non-empty configured id.
    pub fn resolve_unit(&self, format: AdFormat) -> (id: String)
        ensures
            id@ == resolved_unit(self.use_test_ads, self.unit_ids@, format),
    {
        if self.use_test_ads {
            return String::from_str(test_unit_id(format));
        }
        match self.unit_for(format) {
            Some(id) => {
                if id.as_str().unicode_len() > 0 {
                    id.clone()
                } else {
                    String::from_str(test_unit_id(format))
                }
            },
            None => String::from_str(test_unit_id(format)),
        }
    }
}

} // verus!
