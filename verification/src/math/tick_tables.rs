use vstd::prelude::*;

verus! {

/// Number of binary digits of a tick's magnitude that the price tables cover.
pub const TICK_BITS: usize = 19;

/// The factor for binary digit `i` of a tick at or above zero:
/// `sqrt(1.0001)` raised to `2^i`, in Q32.96, rounded down.
pub open spec fn rising_factor(i: int) -> nat {
    if i == 0 {
        79232123823359799118286999567nat
    } else if i == 1 {
        79236085330515764027303304731nat
    } else if i == 2 {
        79244008939048815603706035061nat
    } else if i == 3 {
        79259858533276714757314932305nat
    } else if i == 4 {
        79291567232598584799939703904nat
    } else if i == 5 {
        79355022692464371645785046466nat
    } else if i == 6 {
        79482085999252804386437311141nat
    } else if i == 7 {
        79736823300114093921829183326nat
    } else if i == 8 {
        80248749790819932309965073892nat
    } else if i == 9 {
        81282483887344747381513967011nat
    } else if i == 10 {
        83390072131320151908154831281nat
    } else if i == 11 {
        87770609709833776024991924138nat
    } else if i == 12 {
        97234110755111693312479820773nat
    } else if i == 13 {
        119332217159966728226237229890nat
    } else if i == 14 {
        179736315981702064433883588727nat
    } else if i == 15 {
        407748233172238350107850275304nat
    } else if i == 16 {
        2098478828474011932436660412517nat
    } else if i == 17 {
        55581415166113811149459800483533nat
    } else if i == 18 {
        38992368544603139932233054999993551nat
    } else {
        79228162514264337593543950336
    }
}

/// The factor for binary digit `i` of a tick below zero:
/// `1 / sqrt(1.0001)` raised to `2^i`, in Q64.64, rounded down.
pub open spec fn falling_factor(i: int) -> nat {
    if i == 0 {
        18445821805675392311nat
    } else if i == 1 {
        18444899583751176498nat
    } else if i == 2 {
        18443055278223354162nat
    } else if i == 3 {
        18439367220385604838nat
    } else if i == 4 {
        18431993317065449817nat
    } else if i == 5 {
        18417254355718160513nat
    } else if i == 6 {
        18387811781193591352nat
    } else if i == 7 {
        18329067761203520168nat
    } else if i == 8 {
        18212142134806087854nat
    } else if i == 9 {
        17980523815641551639nat
    } else if i == 10 {
        17526086738831147013nat
    } else if i == 11 {
        16651378430235024244nat
    } else if i == 12 {
        15030750278693429944nat
    } else if i == 13 {
        12247334978882834399nat
    } else if i == 14 {
        8131365268884726200nat
    } else if i == 15 {
        3584323654723342297nat
    } else if i == 16 {
        696457651847595233nat
    } else if i == 17 {
        26294789957452057nat
    } else if i == 18 {
        37481735321082nat
    } else {
        18446744073709551616
    }
}

/// The Q32.96 ratio reached after the rising factors of digits `0..i` have
/// all been applied in turn, each product rounded down.
pub open spec fn rising_ones(i: int) -> nat {
    if i == 0 {
        79228162514264337593543950336nat
    } else if i == 1 {
        79232123823359799118286999567nat
    } else if i == 2 {
        79240047035742135098198828266nat
    } else if i == 3 {
        79255895837549753882639819013nat
    } else if i == 4 {
        79287602951555555546117890668nat
    } else if i == 5 {
        79351055238886287249021387662nat
    } else if i == 6 {
        79478112192985828264683945743nat
    } else if i == 7 {
        79732836757937260015387211174nat
    } else if i == 8 {
        80244737654238127488718973602nat
    } else if i == 9 {
        81278420067934296167840804769nat
    } else if i == 10 {
        83385902940400299275461041535nat
    } else if i == 11 {
        87766221508460644832294642638nat
    } else if i == 12 {
        97229249414171470058378025113nat
    } else if i == 13 {
        119326250996567256184535330018nat
    } else if i == 14 {
        179727329839858001577522965083nat
    } else if i == 15 {
        407727847289508202411734771016nat
    } else if i == 16 {
        2098373912401228121358801911315nat
    } else if i == 17 {
        55578636303768444659257259827406nat
    } else if i == 18 {
        38990419072385107768429658011568861nat
    } else if i == 19 {
        19189247130466284822469633860112541934403nat
    } else {
        79228162514264337593543950336
    }
}

/// The Q64.64 ratio reached after the falling factors of digits `0..i` have
/// all been applied in turn, each product rounded down.
pub open spec fn falling_ones(i: int) -> nat {
    if i == 0 {
        18446744073709551616nat
    } else if i == 1 {
        18445821805675392311nat
    } else if i == 2 {
        18443977407934598850nat
    } else if i == 3 {
        18440289165698567478nat
    } else if i == 4 {
        18432914893692463368nat
    } else if i == 5 {
        18418175195415529478nat
    } else if i == 6 {
        18388731148799035466nat
    } else if i == 7 {
        18329984191681391131nat
    } else if i == 8 {
        18213052719148788671nat
    } else if i == 9 {
        17981422819357802651nat
    } else if i == 10 {
        17526963021261575450nat
    } else if i == 11 {
        16652210978343353594nat
    } else if i == 12 {
        15031501797419866121nat
    } else if i == 13 {
        12247947330323375219nat
    } else if i == 14 {
        8131771826984472022nat
    } else if i == 15 {
        3584502866425897898nat
    } else if i == 16 {
        696492473859659073nat
    } else if i == 17 {
        26296104664083085nat
    } else if i == 18 {
        37483609360998nat
    } else if i == 19 {
        76162531nat
    } else {
        18446744073709551616
    }
}

/// Looks up the rising factor of one binary digit.
pub fn rising_factor_at(i: usize) -> (factor: u128)
    requires
        i < 19,
    ensures
        factor == rising_factor(i as int),
{
    if i == 0 {
        79232123823359799118286999567
    } else if i == 1 {
        79236085330515764027303304731
    } else if i == 2 {
        79244008939048815603706035061
    } else if i == 3 {
        79259858533276714757314932305
    } else if i == 4 {
        79291567232598584799939703904
    } else if i == 5 {
        79355022692464371645785046466
    } else if i == 6 {
        79482085999252804386437311141
    } else if i == 7 {
        79736823300114093921829183326
    } else if i == 8 {
        80248749790819932309965073892
    } else if i == 9 {
        81282483887344747381513967011
    } else if i == 10 {
        83390072131320151908154831281
    } else if i == 11 {
        87770609709833776024991924138
    } else if i == 12 {
        97234110755111693312479820773
    } else if i == 13 {
        119332217159966728226237229890
    } else if i == 14 {
        179736315981702064433883588727
    } else if i == 15 {
        407748233172238350107850275304
    } else if i == 16 {
        2098478828474011932436660412517
    } else if i == 17 {
        55581415166113811149459800483533
    } else {
        38992368544603139932233054999993551
    }
}

/// Looks up the falling factor of one binary digit.
pub fn falling_factor_at(i: usize) -> (factor: u128)
    requires
        i < 19,
    ensures
        factor == falling_factor(i as int),
{
    if i == 0 {
        18445821805675392311
    } else if i == 1 {
        18444899583751176498
    } else if i == 2 {
        18443055278223354162
    } else if i == 3 {
        18439367220385604838
    } else if i == 4 {
        18431993317065449817
    } else if i == 5 {
        18417254355718160513
    } else if i == 6 {
        18387811781193591352
    } else if i == 7 {
        18329067761203520168
    } else if i == 8 {
        18212142134806087854
    } else if i == 9 {
        17980523815641551639
    } else if i == 10 {
        17526086738831147013
    } else if i == 11 {
        16651378430235024244
    } else if i == 12 {
        15030750278693429944
    } else if i == 13 {
        12247334978882834399
    } else if i == 14 {
        8131365268884726200
    } else if i == 15 {
        3584323654723342297
    } else if i == 16 {
        696457651847595233
    } else if i == 17 {
        26294789957452057
    } else {
        37481735321082
    }
}

/// Facts about the rising tables, one digit at a time: a factor is at least
/// one; applying it to the ratio of all lower digits gives the next entry; and
/// it exceeds that ratio by more than the 32 bits a price drops.
pub proof fn lemma_rising_tables(i: int)
    requires
        0 <= i < 19,
    ensures
        rising_factor(i) >= 0x1_0000_0000_0000_0000_0000_0000,
        rising_ones(i + 1) == rising_ones(i) * rising_factor(i) / 0x1_0000_0000_0000_0000_0000_0000,
        rising_factor(i) >= rising_ones(i) + 0x1_0000_0000,
{
    if i == 0 {
        assert(79228162514264337593543950336nat * 79232123823359799118286999567nat / 0x1_0000_0000_0000_0000_0000_0000 == 79232123823359799118286999567nat);
    }
    if i == 1 {
        assert(79232123823359799118286999567nat * 79236085330515764027303304731nat / 0x1_0000_0000_0000_0000_0000_0000 == 79240047035742135098198828266nat);
    }
    if i == 2 {
        assert(79240047035742135098198828266nat * 79244008939048815603706035061nat / 0x1_0000_0000_0000_0000_0000_0000 == 79255895837549753882639819013nat);
    }
    if i == 3 {
        assert(79255895837549753882639819013nat * 79259858533276714757314932305nat / 0x1_0000_0000_0000_0000_0000_0000 == 79287602951555555546117890668nat);
    }
    if i == 4 {
        assert(79287602951555555546117890668nat * 79291567232598584799939703904nat / 0x1_0000_0000_0000_0000_0000_0000 == 79351055238886287249021387662nat);
    }
    if i == 5 {
        assert(79351055238886287249021387662nat * 79355022692464371645785046466nat / 0x1_0000_0000_0000_0000_0000_0000 == 79478112192985828264683945743nat);
    }
    if i == 6 {
        assert(79478112192985828264683945743nat * 79482085999252804386437311141nat / 0x1_0000_0000_0000_0000_0000_0000 == 79732836757937260015387211174nat);
    }
    if i == 7 {
        assert(79732836757937260015387211174nat * 79736823300114093921829183326nat / 0x1_0000_0000_0000_0000_0000_0000 == 80244737654238127488718973602nat);
    }
    if i == 8 {
        assert(80244737654238127488718973602nat * 80248749790819932309965073892nat / 0x1_0000_0000_0000_0000_0000_0000 == 81278420067934296167840804769nat);
    }
    if i == 9 {
        assert(81278420067934296167840804769nat * 81282483887344747381513967011nat / 0x1_0000_0000_0000_0000_0000_0000 == 83385902940400299275461041535nat);
    }
    if i == 10 {
        assert(83385902940400299275461041535nat * 83390072131320151908154831281nat / 0x1_0000_0000_0000_0000_0000_0000 == 87766221508460644832294642638nat);
    }
    if i == 11 {
        assert(87766221508460644832294642638nat * 87770609709833776024991924138nat / 0x1_0000_0000_0000_0000_0000_0000 == 97229249414171470058378025113nat);
    }
    if i == 12 {
        assert(97229249414171470058378025113nat * 97234110755111693312479820773nat / 0x1_0000_0000_0000_0000_0000_0000 == 119326250996567256184535330018nat);
    }
    if i == 13 {
        assert(119326250996567256184535330018nat * 119332217159966728226237229890nat / 0x1_0000_0000_0000_0000_0000_0000 == 179727329839858001577522965083nat);
    }
    if i == 14 {
        assert(179727329839858001577522965083nat * 179736315981702064433883588727nat / 0x1_0000_0000_0000_0000_0000_0000 == 407727847289508202411734771016nat);
    }
    if i == 15 {
        assert(407727847289508202411734771016nat * 407748233172238350107850275304nat / 0x1_0000_0000_0000_0000_0000_0000 == 2098373912401228121358801911315nat);
    }
    if i == 16 {
        assert(2098373912401228121358801911315nat * 2098478828474011932436660412517nat / 0x1_0000_0000_0000_0000_0000_0000 == 55578636303768444659257259827406nat);
    }
    if i == 17 {
        assert(55578636303768444659257259827406nat * 55581415166113811149459800483533nat / 0x1_0000_0000_0000_0000_0000_0000 == 38990419072385107768429658011568861nat);
    }
    if i == 18 {
        assert(38990419072385107768429658011568861nat * 38992368544603139932233054999993551nat / 0x1_0000_0000_0000_0000_0000_0000 == 19189247130466284822469633860112541934403nat);
    }
}

/// Facts about the falling tables, one digit at a time: a factor is positive
/// and below one; applying it to the ratio of all lower digits gives the next
/// entry; it is smaller than that ratio by at least one part in `2^15`; and
/// the entries shrink from one digit to the next.
pub proof fn lemma_falling_tables(i: int)
    requires
        0 <= i < 19,
    ensures
        0 < falling_factor(i) < 0x1_0000_0000_0000_0000,
        falling_ones(i + 1) == falling_ones(i) * falling_factor(i) / 0x1_0000_0000_0000_0000,
        falling_factor(i) * 32768 <= falling_ones(i) * 32767,
        falling_ones(i + 1) <= falling_ones(i),
        falling_ones(i + 1) >= 76162531,
{
    if i == 0 {
        assert(18446744073709551616nat * 18445821805675392311nat / 0x1_0000_0000_0000_0000 == 18445821805675392311nat);
    }
    if i == 1 {
        assert(18445821805675392311nat * 18444899583751176498nat / 0x1_0000_0000_0000_0000 == 18443977407934598850nat);
    }
    if i == 2 {
        assert(18443977407934598850nat * 18443055278223354162nat / 0x1_0000_0000_0000_0000 == 18440289165698567478nat);
    }
    if i == 3 {
        assert(18440289165698567478nat * 18439367220385604838nat / 0x1_0000_0000_0000_0000 == 18432914893692463368nat);
    }
    if i == 4 {
        assert(18432914893692463368nat * 18431993317065449817nat / 0x1_0000_0000_0000_0000 == 18418175195415529478nat);
    }
    if i == 5 {
        assert(18418175195415529478nat * 18417254355718160513nat / 0x1_0000_0000_0000_0000 == 18388731148799035466nat);
    }
    if i == 6 {
        assert(18388731148799035466nat * 18387811781193591352nat / 0x1_0000_0000_0000_0000 == 18329984191681391131nat);
    }
    if i == 7 {
        assert(18329984191681391131nat * 18329067761203520168nat / 0x1_0000_0000_0000_0000 == 18213052719148788671nat);
    }
    if i == 8 {
        assert(18213052719148788671nat * 18212142134806087854nat / 0x1_0000_0000_0000_0000 == 17981422819357802651nat);
    }
    if i == 9 {
        assert(17981422819357802651nat * 17980523815641551639nat / 0x1_0000_0000_0000_0000 == 17526963021261575450nat);
    }
    if i == 10 {
        assert(17526963021261575450nat * 17526086738831147013nat / 0x1_0000_0000_0000_0000 == 16652210978343353594nat);
    }
    if i == 11 {
        assert(16652210978343353594nat * 16651378430235024244nat / 0x1_0000_0000_0000_0000 == 15031501797419866121nat);
    }
    if i == 12 {
        assert(15031501797419866121nat * 15030750278693429944nat / 0x1_0000_0000_0000_0000 == 12247947330323375219nat);
    }
    if i == 13 {
        assert(12247947330323375219nat * 12247334978882834399nat / 0x1_0000_0000_0000_0000 == 8131771826984472022nat);
    }
    if i == 14 {
        assert(8131771826984472022nat * 8131365268884726200nat / 0x1_0000_0000_0000_0000 == 3584502866425897898nat);
    }
    if i == 15 {
        assert(3584502866425897898nat * 3584323654723342297nat / 0x1_0000_0000_0000_0000 == 696492473859659073nat);
    }
    if i == 16 {
        assert(696492473859659073nat * 696457651847595233nat / 0x1_0000_0000_0000_0000 == 26296104664083085nat);
    }
    if i == 17 {
        assert(26296104664083085nat * 26294789957452057nat / 0x1_0000_0000_0000_0000 == 37483609360998nat);
    }
    if i == 18 {
        assert(37483609360998nat * 37481735321082nat / 0x1_0000_0000_0000_0000 == 76162531nat);
    }
}

} // verus!
