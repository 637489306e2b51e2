//! Tests for normative items and bases.

use denidom::normatives::{fer_collections, NormativeBase, NormativeItem};

#[test]
fn test_normative_base_from_code() {
    assert_eq!(
        NormativeBase::from_code_prefix("ФЕР01-01-001"),
        Some(NormativeBase::FER)
    );
    assert_eq!(
        NormativeBase::from_code_prefix("ГЭСН01-01-001"),
        Some(NormativeBase::GESN)
    );
    assert_eq!(
        NormativeBase::from_code_prefix("ТЕР-СПб-01"),
        Some(NormativeBase::TER)
    );
}

#[test]
fn test_normative_item_collection() {
    let item = NormativeItem::new(
        "ФЕР15-01-002-01".to_string(),
        "Штукатурка улучшенная".to_string(),
        NormativeBase::FER,
    );

    assert_eq!(item.collection(), Some("ФЕР15"));
    assert!(item.is_fer());
}

#[test]
fn test_normative_base_variants() {
    assert_eq!(NormativeBase::from_code_prefix("ферм99"), Some(NormativeBase::FERm));
    assert_eq!(NormativeBase::from_code_prefix("FERP-1"), Some(NormativeBase::FERp));
    assert_eq!(NormativeBase::from_code_prefix("ФЕРр05"), Some(NormativeBase::FERr));
    assert_eq!(NormativeBase::from_code_prefix("gesn12"), Some(NormativeBase::GESN));
    assert_eq!(NormativeBase::from_code_prefix("ЕН-05"), None);
    assert_eq!(NormativeBase::FER.display_name(), "ФЕР");
    assert_eq!(
        NormativeBase::GESN.full_name(),
        "Государственные элементные сметные нормы"
    );
}

#[test]
fn test_short_code_has_no_collection() {
    let item = NormativeItem::new("ФЕР1".to_string(), "Тест".to_string(), NormativeBase::FER);
    assert_eq!(item.collection(), None);
    assert!(!item.is_gesn());
    assert!(!item.is_ter());
}

#[test]
fn test_fer_collections_table() {
    let collections = fer_collections();
    assert_eq!(collections.len(), 14);
    assert_eq!(collections[0].code, "01");
    assert_eq!(collections[0].name, "Земляные работы");
    assert_eq!(collections[13].code, "26");
    assert_eq!(collections[13].name, "Теплоизоляционные работы");
    for c in &collections {
        assert_eq!(c.base_type, NormativeBase::FER);
        assert_eq!(c.items_count, 0);
    }
}
