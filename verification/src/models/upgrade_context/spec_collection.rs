//! The range and the texts of each value of the form.

use vstd::prelude::*;
use super::Spec;

verus! {

/// The craft skill: levels 0 to 100.
pub fn handicraft() -> (spec: Spec)
    ensures
        spec.label@ == "손재주"@,
        spec.placeholder@ == "0 ~ 100"@,
        spec.min == 0,
        spec.max == 100,
{
    Spec { label: "손재주", placeholder: "0 ~ 100", min: 0, max: 100 }
}

/// The guild skill that raises the success chance: levels 0 to 4.
pub fn enhance_mastery() -> (spec: Spec)
    ensures
        spec.label@ == "강화의 달인"@,
        spec.placeholder@ == "0 ~ 4"@,
        spec.min == 0,
        spec.max == 4,
{
    Spec { label: "강화의 달인", placeholder: "0 ~ 4", min: 0, max: 4 }
}

/// The guild skill that saves a failed attempt: levels 0 to 4.
pub fn upgrade_salvation() -> (spec: Spec)
    ensures
        spec.label@ == "실패를 두려워 않는"@,
        spec.placeholder@ == "0 ~ 4"@,
        spec.min == 0,
        spec.max == 4,
{
    Spec { label: "실패를 두려워 않는", placeholder: "0 ~ 4", min: 0, max: 4 }
}

/// The level of the equipment: 0 to 250.
pub fn equipment_level() -> (spec: Spec)
    ensures
        spec.label@ == "장비 레벨"@,
        spec.placeholder@ == "0 ~ 250"@,
        spec.min == 0,
        spec.max == 250,
{
    Spec { label: "장비 레벨", placeholder: "0 ~ 250", min: 0, max: 250 }
}

/// The number of enhancement attempts: 1 to 12.
pub fn upgradeable_count() -> (spec: Spec)
    ensures
        spec.label@ == "주문서 강화 가능 횟수"@,
        spec.placeholder@ == "1 ~ 12"@,
        spec.min == 1,
        spec.max == 12,
{
    Spec { label: "주문서 강화 가능 횟수", placeholder: "1 ~ 12", min: 1, max: 12 }
}

/// The traces that one attempt requires: 0 to 10000.
pub fn trace_required() -> (spec: Spec)
    ensures
        spec.label@ == "주문의 흔적 필요 갯수 (썬데이 미적용 기준)"@,
        spec.placeholder@ == "0"@,
        spec.min == 0,
        spec.max == 10000,
{
    Spec { label: "주문의 흔적 필요 갯수 (썬데이 미적용 기준)", placeholder: "0", min: 0, max: 10000 }
}

/// The price of one trace: 0 to 10000.
pub fn trace_price() -> (spec: Spec)
    ensures
        spec.label@ == "주문의 흔적 시세"@,
        spec.placeholder@ == "0"@,
        spec.min == 0,
        spec.max == 10000,
{
    Spec { label: "주문의 흔적 시세", placeholder: "0", min: 0, max: 10000 }
}

} // verus!
