use indy_data_types::anoncreds::rev_reg_def::{
    IssuanceType, RegistryType, RevocationRegistryConfig, CL_ACCUM,
};
use indy_data_types::{Validatable, ValidationError};

const ZERO: &str =
    "RevocationRegistryConfig validation failed: `max_cred_num` must be greater than 0";

#[test]
fn config_with_capacity_zero_is_rejected() {
    for issuance_type in
        [None, Some(IssuanceType::ISSUANCE_BY_DEFAULT), Some(IssuanceType::ISSUANCE_ON_DEMAND)]
    {
        let config = RevocationRegistryConfig { issuance_type, max_cred_num: Some(0) };
        let error = config.validate().unwrap_err();
        assert_eq!(error, ValidationError { message: ZERO.to_string() });
        assert_eq!(error.to_string(), ZERO);
    }
}

#[test]
fn config_with_positive_capacity_is_accepted() {
    for max_cred_num in [1, 2, 1000, u32::MAX - 1, u32::MAX] {
        for issuance_type in
            [None, Some(IssuanceType::ISSUANCE_BY_DEFAULT), Some(IssuanceType::ISSUANCE_ON_DEMAND)]
        {
            let config = RevocationRegistryConfig { issuance_type, max_cred_num: Some(max_cred_num) };
            assert_eq!(config.validate(), Ok(()));
        }
    }
}

#[test]
fn config_without_capacity_is_accepted() {
    for issuance_type in
        [None, Some(IssuanceType::ISSUANCE_BY_DEFAULT), Some(IssuanceType::ISSUANCE_ON_DEMAND)]
    {
        let config = RevocationRegistryConfig { issuance_type, max_cred_num: None };
        assert_eq!(config.validate(), Ok(()));
    }
}

#[test]
fn config_on_demand_with_a_thousand_credentials_is_accepted() {
    let config = RevocationRegistryConfig {
        issuance_type: Some(IssuanceType::ISSUANCE_ON_DEMAND),
        max_cred_num: Some(1000),
    };
    assert_eq!(config.validate(), Ok(()));
}

#[test]
fn validation_gives_the_same_answer_each_time() {
    let config = RevocationRegistryConfig { issuance_type: None, max_cred_num: Some(0) };
    assert_eq!(config.validate(), config.validate());
}

#[test]
fn issuance_by_default_is_true() {
    assert!(IssuanceType::ISSUANCE_BY_DEFAULT.to_bool());
}

#[test]
fn issuance_on_demand_is_false() {
    assert!(!IssuanceType::ISSUANCE_ON_DEMAND.to_bool());
}

#[test]
fn issuance_types_travel_under_their_names() {
    assert_eq!(IssuanceType::ISSUANCE_BY_DEFAULT.to_str(), "ISSUANCE_BY_DEFAULT");
    assert_eq!(IssuanceType::ISSUANCE_ON_DEMAND.to_str(), "ISSUANCE_ON_DEMAND");
    for policy in [IssuanceType::ISSUANCE_BY_DEFAULT, IssuanceType::ISSUANCE_ON_DEMAND] {
        assert_eq!(IssuanceType::from_name(&policy.to_str().to_string()), Some(policy));
    }
    for name in ["", "issuance_by_default", "ISSUANCE_BY_DEFAULT ", "CL_ACCUM"] {
        assert_eq!(IssuanceType::from_name(&name.to_string()), None, "{name:?}");
    }
}

#[test]
fn registry_type_is_cl_accum() {
    assert_eq!(RegistryType::CL_ACCUM.to_str(), "CL_ACCUM");
    assert_eq!(CL_ACCUM, "CL_ACCUM");
    assert_eq!(RegistryType::from_name(&"CL_ACCUM".to_string()), Some(RegistryType::CL_ACCUM));
    for name in ["", "cl_accum", "CL_ACCUM2", "CL"] {
        assert_eq!(RegistryType::from_name(&name.to_string()), None, "{name:?}");
    }
}
