//! Element positions of SKA-Low stations.

use vstd::prelude::*;

use crate::binary64::Binary64;

verus! {

/// East and north of each element of station S8-1, relative to the centre of
/// the station [millimetres].
pub const S8_1_MILLIMETRES: [(i32, i32); 256] = [
    (-15360, -5266),
    (-15137, -9047),
    (-12157, -14172),
    (-10648, -16102),
    (-10560, -13212),
    (-8248, -15407),
    (-6629, -14702),
    (-8399, -12913),
    (-15501, -11765),
    (-13704, -7985),
    (-12514, -9296),
    (-9239, -8540),
    (-10072, -6707),
    (-11934, -7282),
    (-12239, -4324),
    (-13565, -6196),
    (-2760, -15245),
    (-2279, -16986),
    (540, -14194),
    (-2317, -13558),
    (1782, -12720),
    (-713, -12225),
    (-3388, -11963),
    (-5505, -13320),
    (-6744, -11712),
    (-8008, -10463),
    (-9830, -10377),
    (-11688, -11752),
    (-13927, -10758),
    (-6444, -16867),
    (-4930, -15700),
    (-2900, -18730),
    (-5551, -6829),
    (-7284, -6028),
    (-7213, -8436),
    (-9782, -4872),
    (-6977, -4293),
    (-5014, -4743),
    (-5506, -2949),
    (-4160, -553),
    (-5456, -9115),
    (-4901, -10805),
    (-1865, -10661),
    (-2503, -8925),
    (-1457, -7464),
    (-1030, -5633),
    (-3833, -7358),
    (-2926, -4517),
    (6253, -17984),
    (6802, -16314),
    (3432, -16012),
    (5103, -15032),
    (5081, -12199),
    (3472, -11608),
    (3503, -14189),
    (1386, -15799),
    (-5717, 461),
    (-7226, -1787),
    (-8564, -3034),
    (-10459, -662),
    (-10229, -2399),
    (1082, -17547),
    (-792, -19062),
    (3418, -17721),
    (1993, -5820),
    (375, -4624),
    (349, -7538),
    (7314, -12395),
    (7561, -14527),
    (9221, -15078),
    (10520, -13906),
    (12478, -13611),
    (569, -9588),
    (1794, -10867),
    (2092, -8015),
    (4322, -9594),
    (6152, -7648),
    (3834, -6587),
    (4483, -4886),
    (1974, -2763),
    (10038, -6189),
    (8067, -3150),
    (10435, -2825),
    (9928, -1043),
    (8194, -1366),
    (6024, -2255),
    (3606, -900),
    (3817, -3087),
    (9875, -11524),
    (9355, -9796),
    (7693, -8775),
    (7658, -10579),
    (6121, -9616),
    (6359, -4030),
    (6010, -5853),
    (7694, -6609),
    (11676, -4152),
    (11015, -7704),
    (9262, -7814),
    (13838, -3061),
    (14410, -4763),
    (16174, -2648),
    (18139, -4257),
    (18393, -2485),
    (11075, -9585),
    (11707, -11496),
    (14707, -12698),
    (13775, -10205),
    (17055, -8694),
    (13078, -8488),
    (15475, -7302),
    (13083, -6640),
    (14077, 3618),
    (15895, 691),
    (17170, 3029),
    (16693, 4775),
    (19039, 3600),
    (17124, 7765),
    (15495, 6314),
    (10134, 4827),
    (17561, 147),
    (18696, 1797),
    (14745, -1486),
    (12969, -192),
    (11763, -1584),
    (11845, 4576),
    (12753, 2326),
    (14203, 1187),
    (10859, 13368),
    (9841, 11360),
    (8214, 10555),
    (4018, 12990),
    (6115, 15065),
    (5187, 11681),
    (7091, 12000),
    (9050, 13083),
    (8049, 8839),
    (11023, 8273),
    (12981, 7053),
    (12649, 8790),
    (14899, 8065),
    (13442, 10857),
    (11687, 11333),
    (13314, 14245),
    (6878, -115),
    (8296, 1325),
    (11065, 446),
    (10733, 2556),
    (10841, 6513),
    (7886, 6938),
    (8401, 5265),
    (5220, 2977),
    (7547, 13965),
    (10044, 14957),
    (7385, 17607),
    (5713, 16876),
    (4140, 17834),
    (3769, 15915),
    (5353, 843),
    (7556, 2921),
    (2679, 11795),
    (1445, 9478),
    (964, 11221),
    (-2732, 15310),
    (-1247, 12793),
    (-1019, 14628),
    (939, 13050),
    (2827, 14492),
    (2370, 7207),
    (2548, 4777),
    (4274, 5182),
    (4070, 7672),
    (6635, 4875),
    (6079, 6859),
    (6393, 10344),
    (3837, 9439),
    (1646, -546),
    (2797, 1364),
    (857, 1190),
    (3466, 3293),
    (1056, 3738),
    (-1301, 1792),
    (-3457, 1111),
    (-2989, -1846),
    (993, 14923),
    (1868, 17070),
    (384, 18150),
    (-906, 16834),
    (-3396, 19051),
    (-1276, -7),
    (-818, -3294),
    (420, -1922),
    (-3890, 11224),
    (-5692, 8724),
    (-7397, 9248),
    (-7982, 13667),
    (-8006, 11851),
    (-5691, 10777),
    (-5604, 12881),
    (-3331, 13626),
    (-2594, 2983),
    (-3432, 4976),
    (-1034, 5832),
    (812, 5886),
    (-2628, 7481),
    (-1143, 8552),
    (-1841, 10157),
    (-3883, 8849),
    (-7196, 2040),
    (-4389, 2798),
    (-5147, 4456),
    (-4926, 6286),
    (-6914, 4343),
    (-6764, 6446),
    (-9788, 4551),
    (-10469, 2831),
    (-4866, 15710),
    (-3306, 17080),
    (-5663, 17803),
    (-6781, 15273),
    (-10580, 15331),
    (-11197, 1052),
    (-9119, 1756),
    (-8349, -366),
    (-12839, 12074),
    (-14696, 10870),
    (-12102, 10384),
    (-17058, 3261),
    (-15866, 1913),
    (-12593, 2375),
    (-14488, 4229),
    (-12715, 5715),
    (-14465, 8938),
    (-11973, 8405),
    (-10994, 6147),
    (-9461, 7200),
    (-9545, 8911),
    (-10521, 11168),
    (-10012, 12931),
    (-11929, 14132),
    (-13321, -1874),
    (-12229, -396),
    (-13936, 1189),
    (-15381, -790),
    (-16824, 326),
    (-18287, 1416),
    (-18972, -656),
    (-17641, -2379),
    (-15147, 5905),
    (-13561, 7344),
    (-15678, 7637),
    (-17081, 9961),
    (-18327, 5934),
    (-17172, -4909),
    (-16029, -3120),
    (-14016, -3589),
];

/// Are these the elements of station S8-1: east and north of each, relative to the
/// centre of the station [metres]?
pub open spec fn is_s8_1(elements: Seq<(Binary64, Binary64)>) -> bool {
    &&& elements.len() == 256
    &&& forall|i: int|
        #![trigger elements[i]]
        0 <= i < 256 ==> {
            &&& elements[i].0.is_thousandths(S8_1_MILLIMETRES@[i].0 as int)
            &&& elements[i].1.is_thousandths(S8_1_MILLIMETRES@[i].1 as int)
        }
}

/// The elements of station S8-1: east and north of each, relative to the centre
/// of the station [metres].
pub fn get_s8_1() -> (elements: Vec<(Binary64, Binary64)>)
    ensures
        is_s8_1(elements@),
{
    let mut elements: Vec<(Binary64, Binary64)> = Vec::new();
    let mut i: usize = 0;
    while i < 256
        invariant
            i <= 256,
            elements@.len() == i,
            forall|k: int|
                #![trigger elements@[k]]
                0 <= k < i ==> {
                    &&& elements@[k].0.is_thousandths(S8_1_MILLIMETRES@[k].0 as int)
                    &&& elements@[k].1.is_thousandths(S8_1_MILLIMETRES@[k].1 as int)
                },
        decreases 256 - i,
    {
        let (east, north) = S8_1_MILLIMETRES[i];
        elements.push((Binary64::from_thousandths(east), Binary64::from_thousandths(north)));
        i = i + 1;
    }
    elements
}

/// The sums of the coordinates of the first `n` elements, east and north, and of
/// the coordinates multiplied by the place of their element in the table, counted
/// from 1.
pub open spec fn sums_to(n: nat) -> (int, int, int, int)
    decreases n,
{
    if n == 0 {
        (0, 0, 0, 0)
    } else {
        let before = sums_to((n - 1) as nat);
        let (east, north) = S8_1_MILLIMETRES@[n - 1];
        (
            before.0 + east,
            before.1 + north,
            before.2 + n * east,
            before.3 + n * north,
        )
    }
}

/// The table is whole: its coordinates have these sums, which no other value of a
/// single coordinate and no exchange of two elements would leave as they are.
#[verifier::rlimit(100)]
pub proof fn lemma_the_table_adds_up()
    ensures
        sums_to(256) == (2int, -42int, -39375046int, 131454204int),
{
    reveal_with_fuel(sums_to, 9);
    assert(sums_to(8) == (-87138int, -100821int, -340580int, -495004int));
    assert(sums_to(16) == (-185906int, -162916int, -1564288int, -1238610int));
    assert(sums_to(24) == (-200546int, -273127int, -1876618int, -3475268int));
    assert(sums_to(32) == (-265017int, -379486int, -3688933int, -6553393int));
    assert(sums_to(40) == (-316504int, -418189int, -5554194int, -7930560int));
    assert(sums_to(48) == (-340475int, -482667int, -6607603int, -10766848int));
    assert(sums_to(56) == (-305443int, -601804int, -4793656int, -17000558int));
    assert(sums_to(64) == (-343930int, -663555int, -7059478int, -20865956int));
    assert(sums_to(72) == (-294119int, -751054int, -3571933int, -26922487int));
    assert(sums_to(80) == (-268899int, -811002int, -1627435int, -31466554int));
    assert(sums_to(88) == (-208790int, -831817int, 3411366int, -33208246int));
    assert(sums_to(96) == (-148025int, -898599int, 9013363int, -39350922int));
    assert(sums_to(104) == (-35118int, -935483int, 20412490int, -43036414int));
    assert(sums_to(112) == (74837int, -1010591int, 32358252int, -51157769int));
    assert(sums_to(120) == (200464int, -975972int, 46980101int, -47099850int));
    assert(sums_to(128) == (314999int, -969201int, 61208145int, -46243501int));
    assert(sums_to(136) == (375374int, -869099int, 69191134int, -32976657int));
    assert(sums_to(144) == (473418int, -791644int, 82988220int, -22062315int));
    assert(sums_to(152) == (542738int, -765739int, 93271985int, -18183034int));
    assert(sums_to(160) == (594245int, -664821int, 101314924int, -2465365int));
    assert(sums_to(168) == (598101int, -562054int, 101946257int, 14462028int));
    assert(sums_to(176) == (634307int, -505699int, 108210529int, 24206112int));
    assert(sums_to(184) == (636382int, -495603int, 108548767int, 26024383int));
    assert(sums_to(192) == (633651int, -414798int, 108021518int, 41120131int));
    assert(sums_to(200) == (586058int, -322800int, 98674217int, 59217923int));
    assert(sums_to(208) == (570315int, -268084int, 95452356int, 70445706int));
    assert(sums_to(216) == (514722int, -234333int, 83610471int, 77626958int));
    assert(sums_to(224) == (454861int, -150694int, 70374197int, 95949684int));
    assert(sums_to(232) == (342504int, -99873int, 44701436int, 107510736int));
    assert(sums_to(240) == (253604int, -22041int, 23691032int, 125955885int));
    assert(sums_to(248) == (127013int, -25205int, -7299693int, 125180768int));
    assert(sums_to(256) == (2int, -42int, -39375046int, 131454204int));
}

/// The elements of station S8-1 are those of the table, in metres.
pub proof fn lemma_elements_are_those_of_the_table(elements: Vec<(Binary64, Binary64)>, i: int)
    requires
        call_ensures(get_s8_1, (), elements),
        0 <= i < 256,
    ensures
        elements@.len() == 256,
        elements@[i].0.is_thousandths(S8_1_MILLIMETRES@[i].0 as int),
        elements@[i].1.is_thousandths(S8_1_MILLIMETRES@[i].1 as int),
{
}

} // verus!
