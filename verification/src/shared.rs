use vstd::prelude::*;

verus! {

/// The portrait art's width in pixels.
pub const PORTRAIT_WIDTH: u32 = 600;

/// The portrait art's height in pixels.
pub const PORTRAIT_HEIGHT: u32 = 900;

/// The loading-screen tip for a seed: four tips in turn, header then body.
pub open spec fn loading_tip_text(seed: u32) -> (Seq<char>, Seq<char>) {
    let i = seed % 4;
    if i == 0 {
        ("휴식 팁"@, "휴식은 전략입니다. 체력이 떨어지면 변론의 타격감이 줄어요."@)
    } else if i == 1 {
        ("변론 팁"@, "상대의 모순을 발견하면 과감하게 '이의있소!'를 외치세요."@)
    } else if i == 2 {
        ("훈련 팁"@, "주차별 일정을 계획하여 능력치를 골고루 성장시켜야 합니다."@)
    } else {
        ("Fontaine 법률"@, "모든 공판은 물의 신 푸리나 님의 참관 하에 집행됩니다."@)
    }
}

/// Picks a loading tip by seed.
pub fn loading_tip(seed: u32) -> (tip: (&'static str, &'static str))
    ensures
        tip.0@ == loading_tip_text(seed).0,
        tip.1@ == loading_tip_text(seed).1,
{
    let i = seed % 4;
    if i == 0 {
        ("휴식 팁", "휴식은 전략입니다. 체력이 떨어지면 변론의 타격감이 줄어요.")
    } else if i == 1 {
        ("변론 팁", "상대의 모순을 발견하면 과감하게 '이의있소!'를 외치세요.")
    } else if i == 2 {
        ("훈련 팁", "주차별 일정을 계획하여 능력치를 골고루 성장시켜야 합니다.")
    } else {
        ("Fontaine 법률", "모든 공판은 물의 신 푸리나 님의 참관 하에 집행됩니다.")
    }
}

} // verus!
