//! Port bookkeeping for the scans: the common ports, the order in which ports are
//! probed, and the usual service name of a port.
use vstd::prelude::*;
use std::collections::HashMap;
use rand::seq::SliceRandom;

verus! {

broadcast use vstd::std_specs::hash::group_hash_axioms;

/// The 1000 most commonly used ports, in increasing order.
pub open spec fn common_ports_spec() -> Seq<u16> {
    seq![
        1u16, 3u16, 4u16, 6u16, 7u16, 9u16, 13u16, 17u16, 19u16, 20u16, 21u16, 22u16, 23u16, 24u16,
        25u16, 26u16, 30u16, 32u16, 33u16, 37u16, 42u16, 43u16, 49u16, 53u16, 70u16, 79u16, 80u16, 81u16,
        82u16, 83u16, 84u16, 85u16, 88u16, 89u16, 90u16, 99u16, 100u16, 106u16, 109u16, 110u16, 111u16, 113u16,
        119u16, 125u16, 135u16, 139u16, 143u16, 144u16, 146u16, 161u16, 163u16, 179u16, 199u16, 211u16, 212u16, 222u16,
        254u16, 255u16, 256u16, 259u16, 264u16, 280u16, 301u16, 306u16, 311u16, 340u16, 366u16, 389u16, 406u16, 407u16,
        416u16, 417u16, 425u16, 427u16, 443u16, 444u16, 445u16, 458u16, 464u16, 465u16, 481u16, 497u16, 500u16, 512u16,
        513u16, 514u16, 515u16, 524u16, 541u16, 543u16, 544u16, 545u16, 548u16, 554u16, 555u16, 563u16, 587u16, 593u16,
        616u16, 617u16, 625u16, 631u16, 636u16, 646u16, 648u16, 666u16, 667u16, 668u16, 683u16, 687u16, 691u16, 700u16,
        705u16, 711u16, 714u16, 720u16, 722u16, 726u16, 749u16, 765u16, 777u16, 783u16, 787u16, 800u16, 801u16, 808u16,
        843u16, 873u16, 880u16, 888u16, 898u16, 900u16, 901u16, 902u16, 903u16, 911u16, 912u16, 981u16, 987u16, 990u16,
        992u16, 993u16, 995u16, 999u16, 1000u16, 1001u16, 1002u16, 1007u16, 1009u16, 1010u16, 1011u16, 1021u16, 1022u16, 1023u16,
        1024u16, 1025u16, 1026u16, 1027u16, 1028u16, 1029u16, 1030u16, 1031u16, 1032u16, 1033u16, 1034u16, 1035u16, 1036u16, 1037u16,
        1038u16, 1039u16, 1040u16, 1041u16, 1042u16, 1043u16, 1044u16, 1045u16, 1046u16, 1047u16, 1048u16, 1049u16, 1050u16, 1051u16,
        1052u16, 1053u16, 1054u16, 1055u16, 1056u16, 1057u16, 1058u16, 1059u16, 1060u16, 1061u16, 1062u16, 1063u16, 1064u16, 1065u16,
        1066u16, 1067u16, 1068u16, 1069u16, 1070u16, 1071u16, 1072u16, 1073u16, 1074u16, 1075u16, 1076u16, 1077u16, 1078u16, 1079u16,
        1080u16, 1081u16, 1082u16, 1083u16, 1084u16, 1085u16, 1086u16, 1087u16, 1088u16, 1089u16, 1090u16, 1091u16, 1092u16, 1093u16,
        1094u16, 1095u16, 1096u16, 1097u16, 1098u16, 1099u16, 1100u16, 1102u16, 1104u16, 1105u16, 1106u16, 1107u16, 1108u16, 1110u16,
        1111u16, 1112u16, 1113u16, 1114u16, 1117u16, 1119u16, 1121u16, 1122u16, 1123u16, 1124u16, 1126u16, 1130u16, 1131u16, 1132u16,
        1137u16, 1138u16, 1141u16, 1145u16, 1147u16, 1148u16, 1149u16, 1151u16, 1152u16, 1154u16, 1163u16, 1164u16, 1165u16, 1166u16,
        1169u16, 1174u16, 1175u16, 1183u16, 1185u16, 1186u16, 1187u16, 1192u16, 1198u16, 1199u16, 1201u16, 1213u16, 1216u16, 1217u16,
        1218u16, 1233u16, 1234u16, 1236u16, 1244u16, 1247u16, 1248u16, 1259u16, 1271u16, 1272u16, 1277u16, 1287u16, 1296u16, 1300u16,
        1301u16, 1309u16, 1310u16, 1311u16, 1322u16, 1328u16, 1334u16, 1352u16, 1417u16, 1433u16, 1434u16, 1443u16, 1455u16, 1461u16,
        1494u16, 1500u16, 1501u16, 1503u16, 1521u16, 1524u16, 1533u16, 1556u16, 1580u16, 1583u16, 1594u16, 1600u16, 1641u16, 1658u16,
        1666u16, 1687u16, 1688u16, 1700u16, 1717u16, 1718u16, 1719u16, 1720u16, 1721u16, 1723u16, 1755u16, 1761u16, 1782u16, 1783u16,
        1801u16, 1805u16, 1812u16, 1839u16, 1840u16, 1862u16, 1863u16, 1864u16, 1875u16, 1900u16, 1914u16, 1935u16, 1947u16, 1971u16,
        1972u16, 1974u16, 1984u16, 1998u16, 1999u16, 2000u16, 2001u16, 2002u16, 2003u16, 2004u16, 2005u16, 2006u16, 2007u16, 2008u16,
        2009u16, 2010u16, 2013u16, 2020u16, 2021u16, 2022u16, 2030u16, 2033u16, 2034u16, 2035u16, 2038u16, 2040u16, 2041u16, 2042u16,
        2043u16, 2045u16, 2046u16, 2047u16, 2048u16, 2049u16, 2065u16, 2068u16, 2099u16, 2100u16, 2103u16, 2105u16, 2106u16, 2107u16,
        2111u16, 2119u16, 2121u16, 2126u16, 2135u16, 2144u16, 2160u16, 2161u16, 2170u16, 2179u16, 2190u16, 2191u16, 2196u16, 2200u16,
        2222u16, 2251u16, 2260u16, 2288u16, 2301u16, 2323u16, 2366u16, 2381u16, 2382u16, 2383u16, 2393u16, 2394u16, 2399u16, 2401u16,
        2492u16, 2500u16, 2522u16, 2525u16, 2557u16, 2601u16, 2602u16, 2604u16, 2605u16, 2607u16, 2608u16, 2638u16, 2701u16, 2702u16,
        2710u16, 2717u16, 2718u16, 2725u16, 2800u16, 2809u16, 2811u16, 2869u16, 2875u16, 2909u16, 2910u16, 2920u16, 2967u16, 2968u16,
        2998u16, 3000u16, 3001u16, 3003u16, 3005u16, 3006u16, 3007u16, 3011u16, 3013u16, 3017u16, 3030u16, 3031u16, 3052u16, 3071u16,
        3077u16, 3128u16, 3168u16, 3211u16, 3221u16, 3260u16, 3261u16, 3268u16, 3269u16, 3283u16, 3300u16, 3301u16, 3306u16, 3322u16,
        3323u16, 3324u16, 3325u16, 3333u16, 3351u16, 3367u16, 3369u16, 3370u16, 3371u16, 3372u16, 3389u16, 3390u16, 3404u16, 3476u16,
        3493u16, 3517u16, 3527u16, 3546u16, 3551u16, 3580u16, 3659u16, 3689u16, 3690u16, 3703u16, 3737u16, 3766u16, 3784u16, 3800u16,
        3801u16, 3809u16, 3814u16, 3826u16, 3827u16, 3828u16, 3851u16, 3869u16, 3871u16, 3878u16, 3880u16, 3889u16, 3905u16, 3914u16,
        3918u16, 3920u16, 3945u16, 3971u16, 3986u16, 3995u16, 3998u16, 4000u16, 4001u16, 4002u16, 4003u16, 4004u16, 4005u16, 4006u16,
        4045u16, 4111u16, 4125u16, 4126u16, 4129u16, 4224u16, 4242u16, 4279u16, 4321u16, 4343u16, 4443u16, 4444u16, 4445u16, 4446u16,
        4449u16, 4550u16, 4567u16, 4662u16, 4848u16, 4899u16, 4900u16, 4998u16, 5000u16, 5001u16, 5002u16, 5003u16, 5004u16, 5009u16,
        5030u16, 5033u16, 5050u16, 5051u16, 5054u16, 5060u16, 5061u16, 5080u16, 5087u16, 5100u16, 5101u16, 5102u16, 5120u16, 5190u16,
        5200u16, 5214u16, 5221u16, 5222u16, 5225u16, 5226u16, 5269u16, 5280u16, 5298u16, 5357u16, 5405u16, 5414u16, 5431u16, 5432u16,
        5440u16, 5500u16, 5510u16, 5544u16, 5550u16, 5555u16, 5560u16, 5566u16, 5631u16, 5633u16, 5666u16, 5678u16, 5679u16, 5718u16,
        5730u16, 5800u16, 5801u16, 5802u16, 5810u16, 5811u16, 5815u16, 5822u16, 5825u16, 5850u16, 5859u16, 5862u16, 5877u16, 5900u16,
        5901u16, 5902u16, 5903u16, 5904u16, 5906u16, 5907u16, 5910u16, 5911u16, 5915u16, 5922u16, 5925u16, 5950u16, 5952u16, 5959u16,
        5960u16, 5961u16, 5962u16, 5963u16, 5987u16, 5988u16, 5989u16, 5998u16, 5999u16, 6000u16, 6001u16, 6002u16, 6003u16, 6004u16,
        6005u16, 6006u16, 6007u16, 6009u16, 6025u16, 6059u16, 6100u16, 6101u16, 6106u16, 6112u16, 6123u16, 6129u16, 6156u16, 6346u16,
        6389u16, 6502u16, 6510u16, 6543u16, 6547u16, 6565u16, 6566u16, 6567u16, 6580u16, 6646u16, 6666u16, 6667u16, 6668u16, 6669u16,
        6689u16, 6692u16, 6699u16, 6779u16, 6788u16, 6789u16, 6792u16, 6839u16, 6881u16, 6901u16, 6969u16, 7000u16, 7001u16, 7002u16,
        7004u16, 7007u16, 7019u16, 7025u16, 7070u16, 7100u16, 7103u16, 7106u16, 7200u16, 7201u16, 7402u16, 7435u16, 7443u16, 7496u16,
        7512u16, 7625u16, 7627u16, 7676u16, 7741u16, 7777u16, 7778u16, 7800u16, 7911u16, 7920u16, 7921u16, 7937u16, 7938u16, 7999u16,
        8000u16, 8001u16, 8002u16, 8007u16, 8008u16, 8009u16, 8010u16, 8011u16, 8021u16, 8022u16, 8031u16, 8042u16, 8045u16, 8080u16,
        8081u16, 8082u16, 8083u16, 8084u16, 8085u16, 8086u16, 8087u16, 8088u16, 8089u16, 8090u16, 8093u16, 8099u16, 8100u16, 8180u16,
        8181u16, 8192u16, 8193u16, 8194u16, 8200u16, 8222u16, 8254u16, 8290u16, 8291u16, 8292u16, 8300u16, 8333u16, 8383u16, 8400u16,
        8402u16, 8443u16, 8500u16, 8600u16, 8649u16, 8651u16, 8652u16, 8654u16, 8701u16, 8800u16, 8873u16, 8888u16, 8899u16, 8994u16,
        9000u16, 9001u16, 9002u16, 9003u16, 9009u16, 9010u16, 9011u16, 9040u16, 9050u16, 9071u16, 9080u16, 9081u16, 9090u16, 9091u16,
        9099u16, 9100u16, 9101u16, 9102u16, 9103u16, 9110u16, 9111u16, 9200u16, 9207u16, 9220u16, 9290u16, 9415u16, 9418u16, 9485u16,
        9500u16, 9502u16, 9503u16, 9535u16, 9575u16, 9593u16, 9594u16, 9595u16, 9618u16, 9666u16, 9876u16, 9877u16, 9878u16, 9898u16,
        9900u16, 9917u16, 9929u16, 9943u16, 9944u16, 9968u16, 9998u16, 9999u16, 10000u16, 10001u16, 10002u16, 10003u16, 10004u16, 10009u16,
        10010u16, 10012u16, 10024u16, 10025u16, 10082u16, 10180u16, 10215u16, 10243u16, 10566u16, 10616u16, 10617u16, 10621u16, 10626u16, 10628u16,
        10629u16, 10778u16, 11110u16, 11111u16, 11967u16, 12000u16, 12174u16, 12265u16, 12345u16, 13456u16, 13722u16, 13782u16, 13783u16, 14000u16,
        14238u16, 14441u16, 14442u16, 15000u16, 15002u16, 15003u16, 15004u16, 15660u16, 15742u16, 16000u16, 16001u16, 16012u16, 16016u16, 16018u16,
        16080u16, 16113u16, 16992u16, 16993u16, 17877u16, 17988u16, 18040u16, 18101u16, 18988u16, 19101u16, 19283u16, 19315u16, 19350u16, 19780u16,
        19801u16, 19842u16, 20000u16, 20005u16, 20031u16, 20221u16, 20222u16, 20828u16, 21571u16, 22939u16, 23502u16, 24444u16, 24800u16, 25734u16,
        25735u16, 26214u16, 27000u16, 27352u16, 27353u16, 27355u16, 27356u16, 27715u16, 28201u16, 30000u16, 30718u16, 30951u16, 31038u16, 31337u16,
        32768u16, 32769u16, 32770u16, 32771u16, 32772u16, 32773u16, 32774u16, 32775u16, 32776u16, 32777u16, 32778u16, 32779u16, 32780u16, 32781u16,
        32782u16, 32783u16, 32784u16, 32785u16, 33354u16, 33899u16, 34571u16, 34572u16, 34573u16, 35500u16, 38292u16, 40193u16, 40911u16, 41511u16,
        42510u16, 44176u16, 44442u16, 44443u16, 44501u16, 45100u16, 48080u16, 49152u16, 49153u16, 49154u16, 49155u16, 49156u16, 49157u16, 49158u16,
        49159u16, 49160u16, 49161u16, 49163u16, 49165u16, 49167u16, 49175u16, 49176u16, 49400u16, 49999u16, 50000u16, 50001u16, 50002u16, 50003u16,
        50006u16, 50300u16, 50389u16, 50500u16, 50636u16, 50800u16, 51103u16, 51493u16, 52673u16, 52822u16, 52848u16, 52869u16, 54045u16, 54328u16,
        55055u16, 55056u16, 55555u16, 55600u16, 56737u16, 56738u16, 57294u16, 57797u16, 58080u16, 60020u16, 60443u16, 61532u16, 61900u16, 62078u16,
        63331u16, 64623u16, 64680u16, 65000u16, 65129u16, 65389u16
    ]
}

/// The 1000 most commonly used ports, in increasing order.
pub fn common_ports() -> (v: Vec<u16>)
    ensures
        v@ == common_ports_spec(),
{
    let v: Vec<u16> = vec![
        1, 3, 4, 6, 7, 9, 13, 17, 19, 20, 21, 22, 23, 24, 25, 26,
        30, 32, 33, 37, 42, 43, 49, 53, 70, 79, 80, 81, 82, 83, 84, 85,
        88, 89, 90, 99, 100, 106, 109, 110, 111, 113, 119, 125, 135, 139, 143, 144,
        146, 161, 163, 179, 199, 211, 212, 222, 254, 255, 256, 259, 264, 280, 301, 306,
        311, 340, 366, 389, 406, 407, 416, 417, 425, 427, 443, 444, 445, 458, 464, 465,
        481, 497, 500, 512, 513, 514, 515, 524, 541, 543, 544, 545, 548, 554, 555, 563,
        587, 593, 616, 617, 625, 631, 636, 646, 648, 666, 667, 668, 683, 687, 691, 700,
        705, 711, 714, 720, 722, 726, 749, 765, 777, 783, 787, 800, 801, 808, 843, 873,
        880, 888, 898, 900, 901, 902, 903, 911, 912, 981, 987, 990, 992, 993, 995, 999,
        1000, 1001, 1002, 1007, 1009, 1010, 1011, 1021, 1022, 1023, 1024, 1025, 1026, 1027, 1028, 1029,
        1030, 1031, 1032, 1033, 1034, 1035, 1036, 1037, 1038, 1039, 1040, 1041, 1042, 1043, 1044, 1045,
        1046, 1047, 1048, 1049, 1050, 1051, 1052, 1053, 1054, 1055, 1056, 1057, 1058, 1059, 1060, 1061,
        1062, 1063, 1064, 1065, 1066, 1067, 1068, 1069, 1070, 1071, 1072, 1073, 1074, 1075, 1076, 1077,
        1078, 1079, 1080, 1081, 1082, 1083, 1084, 1085, 1086, 1087, 1088, 1089, 1090, 1091, 1092, 1093,
        1094, 1095, 1096, 1097, 1098, 1099, 1100, 1102, 1104, 1105, 1106, 1107, 1108, 1110, 1111, 1112,
        1113, 1114, 1117, 1119, 1121, 1122, 1123, 1124, 1126, 1130, 1131, 1132, 1137, 1138, 1141, 1145,
        1147, 1148, 1149, 1151, 1152, 1154, 1163, 1164, 1165, 1166, 1169, 1174, 1175, 1183, 1185, 1186,
        1187, 1192, 1198, 1199, 1201, 1213, 1216, 1217, 1218, 1233, 1234, 1236, 1244, 1247, 1248, 1259,
        1271, 1272, 1277, 1287, 1296, 1300, 1301, 1309, 1310, 1311, 1322, 1328, 1334, 1352, 1417, 1433,
        1434, 1443, 1455, 1461, 1494, 1500, 1501, 1503, 1521, 1524, 1533, 1556, 1580, 1583, 1594, 1600,
        1641, 1658, 1666, 1687, 1688, 1700, 1717, 1718, 1719, 1720, 1721, 1723, 1755, 1761, 1782, 1783,
        1801, 1805, 1812, 1839, 1840, 1862, 1863, 1864, 1875, 1900, 1914, 1935, 1947, 1971, 1972, 1974,
        1984, 1998, 1999, 2000, 2001, 2002, 2003, 2004, 2005, 2006, 2007, 2008, 2009, 2010, 2013, 2020,
        2021, 2022, 2030, 2033, 2034, 2035, 2038, 2040, 2041, 2042, 2043, 2045, 2046, 2047, 2048, 2049,
        2065, 2068, 2099, 2100, 2103, 2105, 2106, 2107, 2111, 2119, 2121, 2126, 2135, 2144, 2160, 2161,
        2170, 2179, 2190, 2191, 2196, 2200, 2222, 2251, 2260, 2288, 2301, 2323, 2366, 2381, 2382, 2383,
        2393, 2394, 2399, 2401, 2492, 2500, 2522, 2525, 2557, 2601, 2602, 2604, 2605, 2607, 2608, 2638,
        2701, 2702, 2710, 2717, 2718, 2725, 2800, 2809, 2811, 2869, 2875, 2909, 2910, 2920, 2967, 2968,
        2998, 3000, 3001, 3003, 3005, 3006, 3007, 3011, 3013, 3017, 3030, 3031, 3052, 3071, 3077, 3128,
        3168, 3211, 3221, 3260, 3261, 3268, 3269, 3283, 3300, 3301, 3306, 3322, 3323, 3324, 3325, 3333,
        3351, 3367, 3369, 3370, 3371, 3372, 3389, 3390, 3404, 3476, 3493, 3517, 3527, 3546, 3551, 3580,
        3659, 3689, 3690, 3703, 3737, 3766, 3784, 3800, 3801, 3809, 3814, 3826, 3827, 3828, 3851, 3869,
        3871, 3878, 3880, 3889, 3905, 3914, 3918, 3920, 3945, 3971, 3986, 3995, 3998, 4000, 4001, 4002,
        4003, 4004, 4005, 4006, 4045, 4111, 4125, 4126, 4129, 4224, 4242, 4279, 4321, 4343, 4443, 4444,
        4445, 4446, 4449, 4550, 4567, 4662, 4848, 4899, 4900, 4998, 5000, 5001, 5002, 5003, 5004, 5009,
        5030, 5033, 5050, 5051, 5054, 5060, 5061, 5080, 5087, 5100, 5101, 5102, 5120, 5190, 5200, 5214,
        5221, 5222, 5225, 5226, 5269, 5280, 5298, 5357, 5405, 5414, 5431, 5432, 5440, 5500, 5510, 5544,
        5550, 5555, 5560, 5566, 5631, 5633, 5666, 5678, 5679, 5718, 5730, 5800, 5801, 5802, 5810, 5811,
        5815, 5822, 5825, 5850, 5859, 5862, 5877, 5900, 5901, 5902, 5903, 5904, 5906, 5907, 5910, 5911,
        5915, 5922, 5925, 5950, 5952, 5959, 5960, 5961, 5962, 5963, 5987, 5988, 5989, 5998, 5999, 6000,
        6001, 6002, 6003, 6004, 6005, 6006, 6007, 6009, 6025, 6059, 6100, 6101, 6106, 6112, 6123, 6129,
        6156, 6346, 6389, 6502, 6510, 6543, 6547, 6565, 6566, 6567, 6580, 6646, 6666, 6667, 6668, 6669,
        6689, 6692, 6699, 6779, 6788, 6789, 6792, 6839, 6881, 6901, 6969, 7000, 7001, 7002, 7004, 7007,
        7019, 7025, 7070, 7100, 7103, 7106, 7200, 7201, 7402, 7435, 7443, 7496, 7512, 7625, 7627, 7676,
        7741, 7777, 7778, 7800, 7911, 7920, 7921, 7937, 7938, 7999, 8000, 8001, 8002, 8007, 8008, 8009,
        8010, 8011, 8021, 8022, 8031, 8042, 8045, 8080, 8081, 8082, 8083, 8084, 8085, 8086, 8087, 8088,
        8089, 8090, 8093, 8099, 8100, 8180, 8181, 8192, 8193, 8194, 8200, 8222, 8254, 8290, 8291, 8292,
        8300, 8333, 8383, 8400, 8402, 8443, 8500, 8600, 8649, 8651, 8652, 8654, 8701, 8800, 8873, 8888,
        8899, 8994, 9000, 9001, 9002, 9003, 9009, 9010, 9011, 9040, 9050, 9071, 9080, 9081, 9090, 9091,
        9099, 9100, 9101, 9102, 9103, 9110, 9111, 9200, 9207, 9220, 9290, 9415, 9418, 9485, 9500, 9502,
        9503, 9535, 9575, 9593, 9594, 9595, 9618, 9666, 9876, 9877, 9878, 9898, 9900, 9917, 9929, 9943,
        9944, 9968, 9998, 9999, 10000, 10001, 10002, 10003, 10004, 10009, 10010, 10012, 10024, 10025, 10082, 10180,
        10215, 10243, 10566, 10616, 10617, 10621, 10626, 10628, 10629, 10778, 11110, 11111, 11967, 12000, 12174, 12265,
        12345, 13456, 13722, 13782, 13783, 14000, 14238, 14441, 14442, 15000, 15002, 15003, 15004, 15660, 15742, 16000,
        16001, 16012, 16016, 16018, 16080, 16113, 16992, 16993, 17877, 17988, 18040, 18101, 18988, 19101, 19283, 19315,
        19350, 19780, 19801, 19842, 20000, 20005, 20031, 20221, 20222, 20828, 21571, 22939, 23502, 24444, 24800, 25734,
        25735, 26214, 27000, 27352, 27353, 27355, 27356, 27715, 28201, 30000, 30718, 30951, 31038, 31337, 32768, 32769,
        32770, 32771, 32772, 32773, 32774, 32775, 32776, 32777, 32778, 32779, 32780, 32781, 32782, 32783, 32784, 32785,
        33354, 33899, 34571, 34572, 34573, 35500, 38292, 40193, 40911, 41511, 42510, 44176, 44442, 44443, 44501, 45100,
        48080, 49152, 49153, 49154, 49155, 49156, 49157, 49158, 49159, 49160, 49161, 49163, 49165, 49167, 49175, 49176,
        49400, 49999, 50000, 50001, 50002, 50003, 50006, 50300, 50389, 50500, 50636, 50800, 51103, 51493, 52673, 52822,
        52848, 52869, 54045, 54328, 55055, 55056, 55555, 55600, 56737, 56738, 57294, 57797, 58080, 60020, 60443, 61532,
        61900, 62078, 63331, 64623, 64680, 65000, 65129, 65389
    ];
    v
}

/// The usual service name of a common port, or nothing for a port that has none.
pub open spec fn port_name_table(port: u16) -> Option<&'static str> {
    match port {
        1 => Some("TCPMUX"),
        3 => Some("CompressNET"),
        4 => Some("Unassigned"),
        6 => Some("Unassigned"),
        7 => Some("Echo"),
        9 => Some("Discard"),
        13 => Some("Daytime"),
        17 => Some("Quote of the Day"),
        19 => Some("Chargen"),
        20 => Some("FTP Data"),
        21 => Some("FTP"),
        22 => Some("SSH"),
        23 => Some("Telnet"),
        24 => Some("Priv-mail"),
        25 => Some("SMTP"),
        26 => Some("SMTP Alt"),
        30 => Some("MSG ICP"),
        32 => Some("MSDPS"),
        33 => Some("DSP"),
        37 => Some("Time"),
        42 => Some("Nameserver"),
        43 => Some("WHOIS"),
        49 => Some("TACACS"),
        53 => Some("DNS"),
        67 => Some("DHCP Server"),
        68 => Some("DHCP Client"),
        69 => Some("TFTP"),
        70 => Some("Gopher"),
        79 => Some("Finger"),
        80 => Some("HTTP"),
        81 => Some("HTTP Alternate"),
        82 => Some("HTTP Alternate"),
        83 => Some("HTTP Alternate"),
        84 => Some("HTTP Alternate"),
        85 => Some("HTTP Alternate"),
        88 => Some("Kerberos"),
        89 => Some("SU-MIT-TG"),
        90 => Some("DNSIX"),
        99 => Some("Metagram Relay"),
        100 => Some("Newacct"),
        106 => Some("POP3 Password Change"),
        109 => Some("POP2"),
        110 => Some("POP3"),
        111 => Some("RPCBind"),
        113 => Some("Ident"),
        119 => Some("NNTP"),
        123 => Some("NTP (TCP fallback)"),
        125 => Some("LOCUS Map"),
        135 => Some("Microsoft RPC"),
        137 => Some("NetBIOS Name Service"),
        138 => Some("NetBIOS Datagram"),
        139 => Some("NetBIOS Session"),
        143 => Some("IMAP"),
        144 => Some("News"),
        146 => Some("ISO-TP0"),
        161 => Some("SNMP"),
        162 => Some("SNMP Trap"),
        163 => Some("CMIP"),
        177 => Some("XDMCP"),
        179 => Some("BGP"),
        194 => Some("IRC"),
        199 => Some("SMUX"),
        211 => Some("ANet"),
        212 => Some("ANet"),
        222 => Some("Rsh/RSYNC alt"),
        255 => Some("Reserved"),
        389 => Some("LDAP"),
        406 => Some("IMSP"),
        407 => Some("Timbuktu"),
        416 => Some("Silverplatter"),
        417 => Some("Onmux"),
        425 => Some("ICAD"),
        427 => Some("SLP"),
        443 => Some("HTTPS"),
        444 => Some("SNPP"),
        445 => Some("SMB"),
        458 => Some("QuickTime"),
        464 => Some("Kerberos Change/Set Password"),
        465 => Some("SMTPS"),
        500 => Some("ISAKMP"),
        512 => Some("Exec"),
        513 => Some("Login"),
        514 => Some("Shell"),
        515 => Some("Printer (LPD)"),
        520 => Some("RIP"),
        524 => Some("NCP"),
        541 => Some("uucp-rlogin"),
        543 => Some("Kerberos Login"),
        544 => Some("Kerberos Shell"),
        545 => Some("AppleShare"),
        548 => Some("AFP"),
        554 => Some("RTSP"),
        555 => Some("DSF"),
        563 => Some("NNTP over SSL"),
        587 => Some("SMTP Submission"),
        591 => Some("FileMaker"),
        593 => Some("HTTP RPC Ep Map"),
        616 => Some("SCO Syslog"),
        617 => Some("SCO DTMgr"),
        625 => Some("DEC DLM"),
        631 => Some("IPP"),
        636 => Some("LDAPS"),
        646 => Some("LDP"),
        648 => Some("RRP"),
        666 => Some("Doom"),
        667 => Some("Disclose"),
        668 => Some("Mecomm"),
        683 => Some("CORBA IIOP"),
        687 => Some("ASIP Registry"),
        691 => Some("MS Exchange Routing"),
        700 => Some("EPP"),
        705 => Some("AgentX"),
        711 => Some("Cisco TDP"),
        714 => Some("NetView"),
        720 => Some("SMQP"),
        722 => Some("SCCP"),
        726 => Some("OMS"),
        749 => Some("Kerberos Admin"),
        765 => Some("Webster"),
        777 => Some("Multiling HTTP"),
        783 => Some("SpamAssassin"),
        787 => Some("QSC"),
        800 => Some("mdbs-daemon"),
        801 => Some("device"),
        808 => Some("HTTP Proxy"),
        843 => Some("Flash Policy"),
        873 => Some("rsync"),
        880 => Some("Kerberos"),
        888 => Some("CDDBP"),
        898 => Some("Sun Man"),
        900 => Some("OMGINITIALREFS"),
        901 => Some("Samba SWAT"),
        902 => Some("VMware Auth"),
        903 => Some("VMware Console"),
        911 => Some("Network Console"),
        912 => Some("APEX Mesh"),
        981 => Some("Remote HTTPS"),
        987 => Some("WebDAV"),
        989 => Some("FTPS Data"),
        990 => Some("FTPS"),
        992 => Some("Telnet over TLS"),
        993 => Some("IMAPS"),
        994 => Some("IRC over TLS"),
        995 => Some("POP3S"),
        999 => Some("PuTTY Remote"),
        1000 => Some("Cadlock"),
        1025 => Some("NFS/IIS/Windows RPC"),
        1026 => Some("LSA"),
        1027 => Some("IIS"),
        1028 => Some("Windows RPC"),
        1029 => Some("MS LSA"),
        1030 => Some("RPC"),
        1080 => Some("SOCKS Proxy"),
        1110 => Some("NFS Status"),
        1433 => Some("Microsoft SQL Server"),
        1434 => Some("MS SQL Monitor"),
        1521 => Some("Oracle Database"),
        1720 => Some("H.323"),
        1723 => Some("PPTP VPN"),
        1883 => Some("MQTT"),
        1900 => Some("UPnP SSDP"),
        2000 => Some("Cisco SCCP"),
        2001 => Some("DC"),
        2049 => Some("NFS"),
        2082 => Some("cPanel"),
        2083 => Some("cPanel SSL"),
        2100 => Some("Oracle XDB"),
        2121 => Some("FTP Alt"),
        2181 => Some("Zookeeper"),
        2222 => Some("SSH Alt"),
        2375 => Some("Docker"),
        2376 => Some("Docker SSL"),
        2377 => Some("Docker Swarm"),
        2483 => Some("Oracle DB SSL"),
        2484 => Some("Oracle DB"),
        2601 => Some("Zebra"),
        2604 => Some("Quagga"),
        3000 => Some("Dev Web Server"),
        3001 => Some("Dev Web Server"),
        3128 => Some("Squid Proxy"),
        3268 => Some("Global Catalog"),
        3269 => Some("Global Catalog SSL"),
        3306 => Some("MySQL"),
        3389 => Some("RDP"),
        3478 => Some("STUN"),
        3690 => Some("Subversion"),
        4000 => Some("ICQ"),
        4444 => Some("Metasploit"),
        4567 => Some("Rails Dev"),
        4662 => Some("eDonkey"),
        5000 => Some("UPnP / Dev Server"),
        5001 => Some("HTTPS Alt"),
        5060 => Some("SIP"),
        5061 => Some("SIP TLS"),
        5080 => Some("Asterisk"),
        5432 => Some("PostgreSQL"),
        5601 => Some("Kibana"),
        5666 => Some("NRPE"),
        5672 => Some("AMQP"),
        5800 => Some("VNC Web"),
        5900 => Some("VNC"),
        5901 => Some("VNC Display 1"),
        5902 => Some("VNC Display 2"),
        5903 => Some("VNC Display 3"),
        5904 => Some("VNC Display 4"),
        5985 => Some("WinRM HTTP"),
        5986 => Some("WinRM HTTPS"),
        6000 => Some("X11"),
        6001 => Some("X11 Display 1"),
        6002 => Some("X11 Display 2"),
        6003 => Some("X11 Display 3"),
        6004 => Some("X11 Display 4"),
        6005 => Some("X11 Display 5"),
        6379 => Some("Redis"),
        6443 => Some("Kubernetes API"),
        6667 => Some("IRC"),
        7000 => Some("WebLogic"),
        7001 => Some("WebLogic Admin"),
        7070 => Some("RealServer"),
        7199 => Some("Cassandra"),
        7200 => Some("Elastic"),
        7443 => Some("HTTPS Alt"),
        8000 => Some("HTTP Alt"),
        8008 => Some("HTTP Alt (Google)"),
        8009 => Some("AJP13"),
        8010 => Some("HTTP Alt"),
        8080 => Some("HTTP Proxy"),
        8081 => Some("HTTP Alt"),
        8082 => Some("HTTP Alt"),
        8083 => Some("HTTP Alt"),
        8084 => Some("HTTP Alt"),
        8085 => Some("HTTP Alt"),
        8086 => Some("InfluxDB"),
        8087 => Some("HTTP Alt"),
        8088 => Some("HTTP Alt"),
        8089 => Some("Splunk"),
        8090 => Some("HTTP Alt"),
        8181 => Some("HTTP Alt"),
        8200 => Some("Vault"),
        8222 => Some("VMware"),
        8333 => Some("Bitcoin"),
        8400 => Some("RTSP Alt"),
        8443 => Some("HTTPS Alt"),
        8500 => Some("Consul"),
        8600 => Some("Consul DNS"),
        8880 => Some("HTTP Alt"),
        8881 => Some("HTTP Alt"),
        8882 => Some("HTTP Alt"),
        8883 => Some("Secure MQTT"),
        8884 => Some("HTTP Alt"),
        8885 => Some("HTTP Alt"),
        8888 => Some("HTTP Alt"),
        8899 => Some("HTTP Alt"),
        9000 => Some("SonarQube / PHP-FPM"),
        9001 => Some("Tor"),
        9042 => Some("Cassandra"),
        9050 => Some("Tor SOCKS"),
        9080 => Some("HTTP Alt"),
        9090 => Some("Prometheus"),
        9100 => Some("JetDirect"),
        9200 => Some("Elasticsearch"),
        9418 => Some("Git"),
        9443 => Some("HTTPS Alt"),
        9999 => Some("Abyss Web Server"),
        10000 => Some("Webmin"),
        10250 => Some("Kubernetes Kubelet"),
        10255 => Some("Kubelet Readonly"),
        11211 => Some("Memcached"),
        24800 => Some("Synergy"),
        27018 => Some("MongoDB Alt"),
        27019 => Some("MongoDB Config"),
        28017 => Some("MongoDB Web"),
        32768 => Some("RPC High Port"),
        32769 => Some("RPC High Port"),
        32770 => Some("RPC High Port"),
        32771 => Some("RPC High Port"),
        32772 => Some("RPC High Port"),
        32773 => Some("RPC High Port"),
        32774 => Some("RPC High Port"),
        32775 => Some("RPC High Port"),
        32776 => Some("RPC High Port"),
        32777 => Some("RPC High Port"),
        32778 => Some("RPC High Port"),
        32779 => Some("RPC High Port"),
        32780 => Some("RPC High Port"),
        32781 => Some("RPC High Port"),
        32782 => Some("RPC High Port"),
        32783 => Some("RPC High Port"),
        32784 => Some("RPC High Port"),
        32785 => Some("RPC High Port"),
        49152 => Some("Dynamic / Ephemeral Port"),
        49153 => Some("Dynamic / Ephemeral Port"),
        49154 => Some("Dynamic / Ephemeral Port"),
        49155 => Some("Dynamic / Ephemeral Port"),
        49156 => Some("Dynamic / Ephemeral Port"),
        49157 => Some("Dynamic / Ephemeral Port"),
        49158 => Some("Dynamic / Ephemeral Port"),
        49159 => Some("Dynamic / Ephemeral Port"),
        49160 => Some("Dynamic / Ephemeral Port"),
        49161 => Some("Dynamic / Ephemeral Port"),
        49163 => Some("Dynamic / Ephemeral Port"),
        49165 => Some("Dynamic / Ephemeral Port"),
        49167 => Some("Dynamic / Ephemeral Port"),
        49175 => Some("Dynamic / Ephemeral Port"),
        49176 => Some("Dynamic / Ephemeral Port"),
        50000 => Some("DB2"),
        50070 => Some("Hadoop NameNode"),
        50075 => Some("Hadoop DataNode"),
        50090 => Some("Hadoop Secondary NameNode"),
        50389 => Some("LDAP Alternate"),
        50636 => Some("LDAPS Alternate"),
        55555 => Some("Common Dev/Test Port"),
        58080 => Some("HTTP Alternate"),
        60443 => Some("HTTPS Alternate High Port"),
        62078 => Some("iPhone Sync (lockdown)"),
        65389 => Some("LDAP Alternate High Port"),
        _ => None,
    }
}

/// The usual service name of each common port (see `port_name_table`).
pub open spec fn port_names_spec() -> Map<u16, &'static str> {
    Map::new(|p: u16| port_name_table(p) is Some, |p: u16| port_name_table(p).unwrap())
}

/// The usual service name of `port` in the table, if it has one.
pub fn port_name_of(port: u16) -> (r: Option<&'static str>)
    ensures
        r == port_name_table(port),
{
    match port {
        1 => Some("TCPMUX"),
        3 => Some("CompressNET"),
        4 => Some("Unassigned"),
        6 => Some("Unassigned"),
        7 => Some("Echo"),
        9 => Some("Discard"),
        13 => Some("Daytime"),
        17 => Some("Quote of the Day"),
        19 => Some("Chargen"),
        20 => Some("FTP Data"),
        21 => Some("FTP"),
        22 => Some("SSH"),
        23 => Some("Telnet"),
        24 => Some("Priv-mail"),
        25 => Some("SMTP"),
        26 => Some("SMTP Alt"),
        30 => Some("MSG ICP"),
        32 => Some("MSDPS"),
        33 => Some("DSP"),
        37 => Some("Time"),
        42 => Some("Nameserver"),
        43 => Some("WHOIS"),
        49 => Some("TACACS"),
        53 => Some("DNS"),
        67 => Some("DHCP Server"),
        68 => Some("DHCP Client"),
        69 => Some("TFTP"),
        70 => Some("Gopher"),
        79 => Some("Finger"),
        80 => Some("HTTP"),
        81 => Some("HTTP Alternate"),
        82 => Some("HTTP Alternate"),
        83 => Some("HTTP Alternate"),
        84 => Some("HTTP Alternate"),
        85 => Some("HTTP Alternate"),
        88 => Some("Kerberos"),
        89 => Some("SU-MIT-TG"),
        90 => Some("DNSIX"),
        99 => Some("Metagram Relay"),
        100 => Some("Newacct"),
        106 => Some("POP3 Password Change"),
        109 => Some("POP2"),
        110 => Some("POP3"),
        111 => Some("RPCBind"),
        113 => Some("Ident"),
        119 => Some("NNTP"),
        123 => Some("NTP (TCP fallback)"),
        125 => Some("LOCUS Map"),
        135 => Some("Microsoft RPC"),
        137 => Some("NetBIOS Name Service"),
        138 => Some("NetBIOS Datagram"),
        139 => Some("NetBIOS Session"),
        143 => Some("IMAP"),
        144 => Some("News"),
        146 => Some("ISO-TP0"),
        161 => Some("SNMP"),
        162 => Some("SNMP Trap"),
        163 => Some("CMIP"),
        177 => Some("XDMCP"),
        179 => Some("BGP"),
        194 => Some("IRC"),
        199 => Some("SMUX"),
        211 => Some("ANet"),
        212 => Some("ANet"),
        222 => Some("Rsh/RSYNC alt"),
        255 => Some("Reserved"),
        389 => Some("LDAP"),
        406 => Some("IMSP"),
        407 => Some("Timbuktu"),
        416 => Some("Silverplatter"),
        417 => Some("Onmux"),
        425 => Some("ICAD"),
        427 => Some("SLP"),
        443 => Some("HTTPS"),
        444 => Some("SNPP"),
        445 => Some("SMB"),
        458 => Some("QuickTime"),
        464 => Some("Kerberos Change/Set Password"),
        465 => Some("SMTPS"),
        500 => Some("ISAKMP"),
        512 => Some("Exec"),
        513 => Some("Login"),
        514 => Some("Shell"),
        515 => Some("Printer (LPD)"),
        520 => Some("RIP"),
        524 => Some("NCP"),
        541 => Some("uucp-rlogin"),
        543 => Some("Kerberos Login"),
        544 => Some("Kerberos Shell"),
        545 => Some("AppleShare"),
        548 => Some("AFP"),
        554 => Some("RTSP"),
        555 => Some("DSF"),
        563 => Some("NNTP over SSL"),
        587 => Some("SMTP Submission"),
        591 => Some("FileMaker"),
        593 => Some("HTTP RPC Ep Map"),
        616 => Some("SCO Syslog"),
        617 => Some("SCO DTMgr"),
        625 => Some("DEC DLM"),
        631 => Some("IPP"),
        636 => Some("LDAPS"),
        646 => Some("LDP"),
        648 => Some("RRP"),
        666 => Some("Doom"),
        667 => Some("Disclose"),
        668 => Some("Mecomm"),
        683 => Some("CORBA IIOP"),
        687 => Some("ASIP Registry"),
        691 => Some("MS Exchange Routing"),
        700 => Some("EPP"),
        705 => Some("AgentX"),
        711 => Some("Cisco TDP"),
        714 => Some("NetView"),
        720 => Some("SMQP"),
        722 => Some("SCCP"),
        726 => Some("OMS"),
        749 => Some("Kerberos Admin"),
        765 => Some("Webster"),
        777 => Some("Multiling HTTP"),
        783 => Some("SpamAssassin"),
        787 => Some("QSC"),
        800 => Some("mdbs-daemon"),
        801 => Some("device"),
        808 => Some("HTTP Proxy"),
        843 => Some("Flash Policy"),
        873 => Some("rsync"),
        880 => Some("Kerberos"),
        888 => Some("CDDBP"),
        898 => Some("Sun Man"),
        900 => Some("OMGINITIALREFS"),
        901 => Some("Samba SWAT"),
        902 => Some("VMware Auth"),
        903 => Some("VMware Console"),
        911 => Some("Network Console"),
        912 => Some("APEX Mesh"),
        981 => Some("Remote HTTPS"),
        987 => Some("WebDAV"),
        989 => Some("FTPS Data"),
        990 => Some("FTPS"),
        992 => Some("Telnet over TLS"),
        993 => Some("IMAPS"),
        994 => Some("IRC over TLS"),
        995 => Some("POP3S"),
        999 => Some("PuTTY Remote"),
        1000 => Some("Cadlock"),
        1025 => Some("NFS/IIS/Windows RPC"),
        1026 => Some("LSA"),
        1027 => Some("IIS"),
        1028 => Some("Windows RPC"),
        1029 => Some("MS LSA"),
        1030 => Some("RPC"),
        1080 => Some("SOCKS Proxy"),
        1110 => Some("NFS Status"),
        1433 => Some("Microsoft SQL Server"),
        1434 => Some("MS SQL Monitor"),
        1521 => Some("Oracle Database"),
        1720 => Some("H.323"),
        1723 => Some("PPTP VPN"),
        1883 => Some("MQTT"),
        1900 => Some("UPnP SSDP"),
        2000 => Some("Cisco SCCP"),
        2001 => Some("DC"),
        2049 => Some("NFS"),
        2082 => Some("cPanel"),
        2083 => Some("cPanel SSL"),
        2100 => Some("Oracle XDB"),
        2121 => Some("FTP Alt"),
        2181 => Some("Zookeeper"),
        2222 => Some("SSH Alt"),
        2375 => Some("Docker"),
        2376 => Some("Docker SSL"),
        2377 => Some("Docker Swarm"),
        2483 => Some("Oracle DB SSL"),
        2484 => Some("Oracle DB"),
        2601 => Some("Zebra"),
        2604 => Some("Quagga"),
        3000 => Some("Dev Web Server"),
        3001 => Some("Dev Web Server"),
        3128 => Some("Squid Proxy"),
        3268 => Some("Global Catalog"),
        3269 => Some("Global Catalog SSL"),
        3306 => Some("MySQL"),
        3389 => Some("RDP"),
        3478 => Some("STUN"),
        3690 => Some("Subversion"),
        4000 => Some("ICQ"),
        4444 => Some("Metasploit"),
        4567 => Some("Rails Dev"),
        4662 => Some("eDonkey"),
        5000 => Some("UPnP / Dev Server"),
        5001 => Some("HTTPS Alt"),
        5060 => Some("SIP"),
        5061 => Some("SIP TLS"),
        5080 => Some("Asterisk"),
        5432 => Some("PostgreSQL"),
        5601 => Some("Kibana"),
        5666 => Some("NRPE"),
        5672 => Some("AMQP"),
        5800 => Some("VNC Web"),
        5900 => Some("VNC"),
        5901 => Some("VNC Display 1"),
        5902 => Some("VNC Display 2"),
        5903 => Some("VNC Display 3"),
        5904 => Some("VNC Display 4"),
        5985 => Some("WinRM HTTP"),
        5986 => Some("WinRM HTTPS"),
        6000 => Some("X11"),
        6001 => Some("X11 Display 1"),
        6002 => Some("X11 Display 2"),
        6003 => Some("X11 Display 3"),
        6004 => Some("X11 Display 4"),
        6005 => Some("X11 Display 5"),
        6379 => Some("Redis"),
        6443 => Some("Kubernetes API"),
        6667 => Some("IRC"),
        7000 => Some("WebLogic"),
        7001 => Some("WebLogic Admin"),
        7070 => Some("RealServer"),
        7199 => Some("Cassandra"),
        7200 => Some("Elastic"),
        7443 => Some("HTTPS Alt"),
        8000 => Some("HTTP Alt"),
        8008 => Some("HTTP Alt (Google)"),
        8009 => Some("AJP13"),
        8010 => Some("HTTP Alt"),
        8080 => Some("HTTP Proxy"),
        8081 => Some("HTTP Alt"),
        8082 => Some("HTTP Alt"),
        8083 => Some("HTTP Alt"),
        8084 => Some("HTTP Alt"),
        8085 => Some("HTTP Alt"),
        8086 => Some("InfluxDB"),
        8087 => Some("HTTP Alt"),
        8088 => Some("HTTP Alt"),
        8089 => Some("Splunk"),
        8090 => Some("HTTP Alt"),
        8181 => Some("HTTP Alt"),
        8200 => Some("Vault"),
        8222 => Some("VMware"),
        8333 => Some("Bitcoin"),
        8400 => Some("RTSP Alt"),
        8443 => Some("HTTPS Alt"),
        8500 => Some("Consul"),
        8600 => Some("Consul DNS"),
        8880 => Some("HTTP Alt"),
        8881 => Some("HTTP Alt"),
        8882 => Some("HTTP Alt"),
        8883 => Some("Secure MQTT"),
        8884 => Some("HTTP Alt"),
        8885 => Some("HTTP Alt"),
        8888 => Some("HTTP Alt"),
        8899 => Some("HTTP Alt"),
        9000 => Some("SonarQube / PHP-FPM"),
        9001 => Some("Tor"),
        9042 => Some("Cassandra"),
        9050 => Some("Tor SOCKS"),
        9080 => Some("HTTP Alt"),
        9090 => Some("Prometheus"),
        9100 => Some("JetDirect"),
        9200 => Some("Elasticsearch"),
        9418 => Some("Git"),
        9443 => Some("HTTPS Alt"),
        9999 => Some("Abyss Web Server"),
        10000 => Some("Webmin"),
        10250 => Some("Kubernetes Kubelet"),
        10255 => Some("Kubelet Readonly"),
        11211 => Some("Memcached"),
        24800 => Some("Synergy"),
        27018 => Some("MongoDB Alt"),
        27019 => Some("MongoDB Config"),
        28017 => Some("MongoDB Web"),
        32768 => Some("RPC High Port"),
        32769 => Some("RPC High Port"),
        32770 => Some("RPC High Port"),
        32771 => Some("RPC High Port"),
        32772 => Some("RPC High Port"),
        32773 => Some("RPC High Port"),
        32774 => Some("RPC High Port"),
        32775 => Some("RPC High Port"),
        32776 => Some("RPC High Port"),
        32777 => Some("RPC High Port"),
        32778 => Some("RPC High Port"),
        32779 => Some("RPC High Port"),
        32780 => Some("RPC High Port"),
        32781 => Some("RPC High Port"),
        32782 => Some("RPC High Port"),
        32783 => Some("RPC High Port"),
        32784 => Some("RPC High Port"),
        32785 => Some("RPC High Port"),
        49152 => Some("Dynamic / Ephemeral Port"),
        49153 => Some("Dynamic / Ephemeral Port"),
        49154 => Some("Dynamic / Ephemeral Port"),
        49155 => Some("Dynamic / Ephemeral Port"),
        49156 => Some("Dynamic / Ephemeral Port"),
        49157 => Some("Dynamic / Ephemeral Port"),
        49158 => Some("Dynamic / Ephemeral Port"),
        49159 => Some("Dynamic / Ephemeral Port"),
        49160 => Some("Dynamic / Ephemeral Port"),
        49161 => Some("Dynamic / Ephemeral Port"),
        49163 => Some("Dynamic / Ephemeral Port"),
        49165 => Some("Dynamic / Ephemeral Port"),
        49167 => Some("Dynamic / Ephemeral Port"),
        49175 => Some("Dynamic / Ephemeral Port"),
        49176 => Some("Dynamic / Ephemeral Port"),
        50000 => Some("DB2"),
        50070 => Some("Hadoop NameNode"),
        50075 => Some("Hadoop DataNode"),
        50090 => Some("Hadoop Secondary NameNode"),
        50389 => Some("LDAP Alternate"),
        50636 => Some("LDAPS Alternate"),
        55555 => Some("Common Dev/Test Port"),
        58080 => Some("HTTP Alternate"),
        60443 => Some("HTTPS Alternate High Port"),
        62078 => Some("iPhone Sync (lockdown)"),
        65389 => Some("LDAP Alternate High Port"),
        _ => None,
    }
}

/// The common ports and their service names, one by one: `m` names exactly
/// these ports, each with its name.
pub open spec fn lists_common_port_names(m: Map<u16, &'static str>) -> bool {
    &&& m.contains_key(1) && m[1] == "TCPMUX"
    &&& m.contains_key(3) && m[3] == "CompressNET"
    &&& m.contains_key(4) && m[4] == "Unassigned"
    &&& m.contains_key(6) && m[6] == "Unassigned"
    &&& m.contains_key(7) && m[7] == "Echo"
    &&& m.contains_key(9) && m[9] == "Discard"
    &&& m.contains_key(13) && m[13] == "Daytime"
    &&& m.contains_key(17) && m[17] == "Quote of the Day"
    &&& m.contains_key(19) && m[19] == "Chargen"
    &&& m.contains_key(20) && m[20] == "FTP Data"
    &&& m.contains_key(21) && m[21] == "FTP"
    &&& m.contains_key(22) && m[22] == "SSH"
    &&& m.contains_key(23) && m[23] == "Telnet"
    &&& m.contains_key(24) && m[24] == "Priv-mail"
    &&& m.contains_key(25) && m[25] == "SMTP"
    &&& m.contains_key(26) && m[26] == "SMTP Alt"
    &&& m.contains_key(30) && m[30] == "MSG ICP"
    &&& m.contains_key(32) && m[32] == "MSDPS"
    &&& m.contains_key(33) && m[33] == "DSP"
    &&& m.contains_key(37) && m[37] == "Time"
    &&& m.contains_key(42) && m[42] == "Nameserver"
    &&& m.contains_key(43) && m[43] == "WHOIS"
    &&& m.contains_key(49) && m[49] == "TACACS"
    &&& m.contains_key(53) && m[53] == "DNS"
    &&& m.contains_key(67) && m[67] == "DHCP Server"
    &&& m.contains_key(68) && m[68] == "DHCP Client"
    &&& m.contains_key(69) && m[69] == "TFTP"
    &&& m.contains_key(70) && m[70] == "Gopher"
    &&& m.contains_key(79) && m[79] == "Finger"
    &&& m.contains_key(80) && m[80] == "HTTP"
    &&& m.contains_key(81) && m[81] == "HTTP Alternate"
    &&& m.contains_key(82) && m[82] == "HTTP Alternate"
    &&& m.contains_key(83) && m[83] == "HTTP Alternate"
    &&& m.contains_key(84) && m[84] == "HTTP Alternate"
    &&& m.contains_key(85) && m[85] == "HTTP Alternate"
    &&& m.contains_key(88) && m[88] == "Kerberos"
    &&& m.contains_key(89) && m[89] == "SU-MIT-TG"
    &&& m.contains_key(90) && m[90] == "DNSIX"
    &&& m.contains_key(99) && m[99] == "Metagram Relay"
    &&& m.contains_key(100) && m[100] == "Newacct"
    &&& m.contains_key(106) && m[106] == "POP3 Password Change"
    &&& m.contains_key(109) && m[109] == "POP2"
    &&& m.contains_key(110) && m[110] == "POP3"
    &&& m.contains_key(111) && m[111] == "RPCBind"
    &&& m.contains_key(113) && m[113] == "Ident"
    &&& m.contains_key(119) && m[119] == "NNTP"
    &&& m.contains_key(123) && m[123] == "NTP (TCP fallback)"
    &&& m.contains_key(125) && m[125] == "LOCUS Map"
    &&& m.contains_key(135) && m[135] == "Microsoft RPC"
    &&& m.contains_key(137) && m[137] == "NetBIOS Name Service"
    &&& m.contains_key(138) && m[138] == "NetBIOS Datagram"
    &&& m.contains_key(139) && m[139] == "NetBIOS Session"
    &&& m.contains_key(143) && m[143] == "IMAP"
    &&& m.contains_key(144) && m[144] == "News"
    &&& m.contains_key(146) && m[146] == "ISO-TP0"
    &&& m.contains_key(161) && m[161] == "SNMP"
    &&& m.contains_key(162) && m[162] == "SNMP Trap"
    &&& m.contains_key(163) && m[163] == "CMIP"
    &&& m.contains_key(177) && m[177] == "XDMCP"
    &&& m.contains_key(179) && m[179] == "BGP"
    &&& m.contains_key(194) && m[194] == "IRC"
    &&& m.contains_key(199) && m[199] == "SMUX"
    &&& m.contains_key(211) && m[211] == "ANet"
    &&& m.contains_key(212) && m[212] == "ANet"
    &&& m.contains_key(222) && m[222] == "Rsh/RSYNC alt"
    &&& m.contains_key(255) && m[255] == "Reserved"
    &&& m.contains_key(389) && m[389] == "LDAP"
    &&& m.contains_key(406) && m[406] == "IMSP"
    &&& m.contains_key(407) && m[407] == "Timbuktu"
    &&& m.contains_key(416) && m[416] == "Silverplatter"
    &&& m.contains_key(417) && m[417] == "Onmux"
    &&& m.contains_key(425) && m[425] == "ICAD"
    &&& m.contains_key(427) && m[427] == "SLP"
    &&& m.contains_key(443) && m[443] == "HTTPS"
    &&& m.contains_key(444) && m[444] == "SNPP"
    &&& m.contains_key(445) && m[445] == "SMB"
    &&& m.contains_key(458) && m[458] == "QuickTime"
    &&& m.contains_key(464) && m[464] == "Kerberos Change/Set Password"
    &&& m.contains_key(465) && m[465] == "SMTPS"
    &&& m.contains_key(500) && m[500] == "ISAKMP"
    &&& m.contains_key(512) && m[512] == "Exec"
    &&& m.contains_key(513) && m[513] == "Login"
    &&& m.contains_key(514) && m[514] == "Shell"
    &&& m.contains_key(515) && m[515] == "Printer (LPD)"
    &&& m.contains_key(520) && m[520] == "RIP"
    &&& m.contains_key(524) && m[524] == "NCP"
    &&& m.contains_key(541) && m[541] == "uucp-rlogin"
    &&& m.contains_key(543) && m[543] == "Kerberos Login"
    &&& m.contains_key(544) && m[544] == "Kerberos Shell"
    &&& m.contains_key(545) && m[545] == "AppleShare"
    &&& m.contains_key(548) && m[548] == "AFP"
    &&& m.contains_key(554) && m[554] == "RTSP"
    &&& m.contains_key(555) && m[555] == "DSF"
    &&& m.contains_key(563) && m[563] == "NNTP over SSL"
    &&& m.contains_key(587) && m[587] == "SMTP Submission"
    &&& m.contains_key(591) && m[591] == "FileMaker"
    &&& m.contains_key(593) && m[593] == "HTTP RPC Ep Map"
    &&& m.contains_key(616) && m[616] == "SCO Syslog"
    &&& m.contains_key(617) && m[617] == "SCO DTMgr"
    &&& m.contains_key(625) && m[625] == "DEC DLM"
    &&& m.contains_key(631) && m[631] == "IPP"
    &&& m.contains_key(636) && m[636] == "LDAPS"
    &&& m.contains_key(646) && m[646] == "LDP"
    &&& m.contains_key(648) && m[648] == "RRP"
    &&& m.contains_key(666) && m[666] == "Doom"
    &&& m.contains_key(667) && m[667] == "Disclose"
    &&& m.contains_key(668) && m[668] == "Mecomm"
    &&& m.contains_key(683) && m[683] == "CORBA IIOP"
    &&& m.contains_key(687) && m[687] == "ASIP Registry"
    &&& m.contains_key(691) && m[691] == "MS Exchange Routing"
    &&& m.contains_key(700) && m[700] == "EPP"
    &&& m.contains_key(705) && m[705] == "AgentX"
    &&& m.contains_key(711) && m[711] == "Cisco TDP"
    &&& m.contains_key(714) && m[714] == "NetView"
    &&& m.contains_key(720) && m[720] == "SMQP"
    &&& m.contains_key(722) && m[722] == "SCCP"
    &&& m.contains_key(726) && m[726] == "OMS"
    &&& m.contains_key(749) && m[749] == "Kerberos Admin"
    &&& m.contains_key(765) && m[765] == "Webster"
    &&& m.contains_key(777) && m[777] == "Multiling HTTP"
    &&& m.contains_key(783) && m[783] == "SpamAssassin"
    &&& m.contains_key(787) && m[787] == "QSC"
    &&& m.contains_key(800) && m[800] == "mdbs-daemon"
    &&& m.contains_key(801) && m[801] == "device"
    &&& m.contains_key(808) && m[808] == "HTTP Proxy"
    &&& m.contains_key(843) && m[843] == "Flash Policy"
    &&& m.contains_key(873) && m[873] == "rsync"
    &&& m.contains_key(880) && m[880] == "Kerberos"
    &&& m.contains_key(888) && m[888] == "CDDBP"
    &&& m.contains_key(898) && m[898] == "Sun Man"
    &&& m.contains_key(900) && m[900] == "OMGINITIALREFS"
    &&& m.contains_key(901) && m[901] == "Samba SWAT"
    &&& m.contains_key(902) && m[902] == "VMware Auth"
    &&& m.contains_key(903) && m[903] == "VMware Console"
    &&& m.contains_key(911) && m[911] == "Network Console"
    &&& m.contains_key(912) && m[912] == "APEX Mesh"
    &&& m.contains_key(981) && m[981] == "Remote HTTPS"
    &&& m.contains_key(987) && m[987] == "WebDAV"
    &&& m.contains_key(989) && m[989] == "FTPS Data"
    &&& m.contains_key(990) && m[990] == "FTPS"
    &&& m.contains_key(992) && m[992] == "Telnet over TLS"
    &&& m.contains_key(993) && m[993] == "IMAPS"
    &&& m.contains_key(994) && m[994] == "IRC over TLS"
    &&& m.contains_key(995) && m[995] == "POP3S"
    &&& m.contains_key(999) && m[999] == "PuTTY Remote"
    &&& m.contains_key(1000) && m[1000] == "Cadlock"
    &&& m.contains_key(1025) && m[1025] == "NFS/IIS/Windows RPC"
    &&& m.contains_key(1026) && m[1026] == "LSA"
    &&& m.contains_key(1027) && m[1027] == "IIS"
    &&& m.contains_key(1028) && m[1028] == "Windows RPC"
    &&& m.contains_key(1029) && m[1029] == "MS LSA"
    &&& m.contains_key(1030) && m[1030] == "RPC"
    &&& m.contains_key(1080) && m[1080] == "SOCKS Proxy"
    &&& m.contains_key(1110) && m[1110] == "NFS Status"
    &&& m.contains_key(1433) && m[1433] == "Microsoft SQL Server"
    &&& m.contains_key(1434) && m[1434] == "MS SQL Monitor"
    &&& m.contains_key(1521) && m[1521] == "Oracle Database"
    &&& m.contains_key(1720) && m[1720] == "H.323"
    &&& m.contains_key(1723) && m[1723] == "PPTP VPN"
    &&& m.contains_key(1883) && m[1883] == "MQTT"
    &&& m.contains_key(1900) && m[1900] == "UPnP SSDP"
    &&& m.contains_key(2000) && m[2000] == "Cisco SCCP"
    &&& m.contains_key(2001) && m[2001] == "DC"
    &&& m.contains_key(2049) && m[2049] == "NFS"
    &&& m.contains_key(2082) && m[2082] == "cPanel"
    &&& m.contains_key(2083) && m[2083] == "cPanel SSL"
    &&& m.contains_key(2100) && m[2100] == "Oracle XDB"
    &&& m.contains_key(2121) && m[2121] == "FTP Alt"
    &&& m.contains_key(2181) && m[2181] == "Zookeeper"
    &&& m.contains_key(2222) && m[2222] == "SSH Alt"
    &&& m.contains_key(2375) && m[2375] == "Docker"
    &&& m.contains_key(2376) && m[2376] == "Docker SSL"
    &&& m.contains_key(2377) && m[2377] == "Docker Swarm"
    &&& m.contains_key(2483) && m[2483] == "Oracle DB SSL"
    &&& m.contains_key(2484) && m[2484] == "Oracle DB"
    &&& m.contains_key(2601) && m[2601] == "Zebra"
    &&& m.contains_key(2604) && m[2604] == "Quagga"
    &&& m.contains_key(3000) && m[3000] == "Dev Web Server"
    &&& m.contains_key(3001) && m[3001] == "Dev Web Server"
    &&& m.contains_key(3128) && m[3128] == "Squid Proxy"
    &&& m.contains_key(3268) && m[3268] == "Global Catalog"
    &&& m.contains_key(3269) && m[3269] == "Global Catalog SSL"
    &&& m.contains_key(3306) && m[3306] == "MySQL"
    &&& m.contains_key(3389) && m[3389] == "RDP"
    &&& m.contains_key(3478) && m[3478] == "STUN"
    &&& m.contains_key(3690) && m[3690] == "Subversion"
    &&& m.contains_key(4000) && m[4000] == "ICQ"
    &&& m.contains_key(4444) && m[4444] == "Metasploit"
    &&& m.contains_key(4567) && m[4567] == "Rails Dev"
    &&& m.contains_key(4662) && m[4662] == "eDonkey"
    &&& m.contains_key(5000) && m[5000] == "UPnP / Dev Server"
    &&& m.contains_key(5001) && m[5001] == "HTTPS Alt"
    &&& m.contains_key(5060) && m[5060] == "SIP"
    &&& m.contains_key(5061) && m[5061] == "SIP TLS"
    &&& m.contains_key(5080) && m[5080] == "Asterisk"
    &&& m.contains_key(5432) && m[5432] == "PostgreSQL"
    &&& m.contains_key(5601) && m[5601] == "Kibana"
    &&& m.contains_key(5666) && m[5666] == "NRPE"
    &&& m.contains_key(5672) && m[5672] == "AMQP"
    &&& m.contains_key(5800) && m[5800] == "VNC Web"
    &&& m.contains_key(5900) && m[5900] == "VNC"
    &&& m.contains_key(5901) && m[5901] == "VNC Display 1"
    &&& m.contains_key(5902) && m[5902] == "VNC Display 2"
    &&& m.contains_key(5903) && m[5903] == "VNC Display 3"
    &&& m.contains_key(5904) && m[5904] == "VNC Display 4"
    &&& m.contains_key(5985) && m[5985] == "WinRM HTTP"
    &&& m.contains_key(5986) && m[5986] == "WinRM HTTPS"
    &&& m.contains_key(6000) && m[6000] == "X11"
    &&& m.contains_key(6001) && m[6001] == "X11 Display 1"
    &&& m.contains_key(6002) && m[6002] == "X11 Display 2"
    &&& m.contains_key(6003) && m[6003] == "X11 Display 3"
    &&& m.contains_key(6004) && m[6004] == "X11 Display 4"
    &&& m.contains_key(6005) && m[6005] == "X11 Display 5"
    &&& m.contains_key(6379) && m[6379] == "Redis"
    &&& m.contains_key(6443) && m[6443] == "Kubernetes API"
    &&& m.contains_key(6667) && m[6667] == "IRC"
    &&& m.contains_key(7000) && m[7000] == "WebLogic"
    &&& m.contains_key(7001) && m[7001] == "WebLogic Admin"
    &&& m.contains_key(7070) && m[7070] == "RealServer"
    &&& m.contains_key(7199) && m[7199] == "Cassandra"
    &&& m.contains_key(7200) && m[7200] == "Elastic"
    &&& m.contains_key(7443) && m[7443] == "HTTPS Alt"
    &&& m.contains_key(8000) && m[8000] == "HTTP Alt"
    &&& m.contains_key(8008) && m[8008] == "HTTP Alt (Google)"
    &&& m.contains_key(8009) && m[8009] == "AJP13"
    &&& m.contains_key(8010) && m[8010] == "HTTP Alt"
    &&& m.contains_key(8080) && m[8080] == "HTTP Proxy"
    &&& m.contains_key(8081) && m[8081] == "HTTP Alt"
    &&& m.contains_key(8082) && m[8082] == "HTTP Alt"
    &&& m.contains_key(8083) && m[8083] == "HTTP Alt"
    &&& m.contains_key(8084) && m[8084] == "HTTP Alt"
    &&& m.contains_key(8085) && m[8085] == "HTTP Alt"
    &&& m.contains_key(8086) && m[8086] == "InfluxDB"
    &&& m.contains_key(8087) && m[8087] == "HTTP Alt"
    &&& m.contains_key(8088) && m[8088] == "HTTP Alt"
    &&& m.contains_key(8089) && m[8089] == "Splunk"
    &&& m.contains_key(8090) && m[8090] == "HTTP Alt"
    &&& m.contains_key(8181) && m[8181] == "HTTP Alt"
    &&& m.contains_key(8200) && m[8200] == "Vault"
    &&& m.contains_key(8222) && m[8222] == "VMware"
    &&& m.contains_key(8333) && m[8333] == "Bitcoin"
    &&& m.contains_key(8400) && m[8400] == "RTSP Alt"
    &&& m.contains_key(8443) && m[8443] == "HTTPS Alt"
    &&& m.contains_key(8500) && m[8500] == "Consul"
    &&& m.contains_key(8600) && m[8600] == "Consul DNS"
    &&& m.contains_key(8880) && m[8880] == "HTTP Alt"
    &&& m.contains_key(8881) && m[8881] == "HTTP Alt"
    &&& m.contains_key(8882) && m[8882] == "HTTP Alt"
    &&& m.contains_key(8883) && m[8883] == "Secure MQTT"
    &&& m.contains_key(8884) && m[8884] == "HTTP Alt"
    &&& m.contains_key(8885) && m[8885] == "HTTP Alt"
    &&& m.contains_key(8888) && m[8888] == "HTTP Alt"
    &&& m.contains_key(8899) && m[8899] == "HTTP Alt"
    &&& m.contains_key(9000) && m[9000] == "SonarQube / PHP-FPM"
    &&& m.contains_key(9001) && m[9001] == "Tor"
    &&& m.contains_key(9042) && m[9042] == "Cassandra"
    &&& m.contains_key(9050) && m[9050] == "Tor SOCKS"
    &&& m.contains_key(9080) && m[9080] == "HTTP Alt"
    &&& m.contains_key(9090) && m[9090] == "Prometheus"
    &&& m.contains_key(9100) && m[9100] == "JetDirect"
    &&& m.contains_key(9200) && m[9200] == "Elasticsearch"
    &&& m.contains_key(9418) && m[9418] == "Git"
    &&& m.contains_key(9443) && m[9443] == "HTTPS Alt"
    &&& m.contains_key(9999) && m[9999] == "Abyss Web Server"
    &&& m.contains_key(10000) && m[10000] == "Webmin"
    &&& m.contains_key(10250) && m[10250] == "Kubernetes Kubelet"
    &&& m.contains_key(10255) && m[10255] == "Kubelet Readonly"
    &&& m.contains_key(11211) && m[11211] == "Memcached"
    &&& m.contains_key(24800) && m[24800] == "Synergy"
    &&& m.contains_key(27018) && m[27018] == "MongoDB Alt"
    &&& m.contains_key(27019) && m[27019] == "MongoDB Config"
    &&& m.contains_key(28017) && m[28017] == "MongoDB Web"
    &&& m.contains_key(32768) && m[32768] == "RPC High Port"
    &&& m.contains_key(32769) && m[32769] == "RPC High Port"
    &&& m.contains_key(32770) && m[32770] == "RPC High Port"
    &&& m.contains_key(32771) && m[32771] == "RPC High Port"
    &&& m.contains_key(32772) && m[32772] == "RPC High Port"
    &&& m.contains_key(32773) && m[32773] == "RPC High Port"
    &&& m.contains_key(32774) && m[32774] == "RPC High Port"
    &&& m.contains_key(32775) && m[32775] == "RPC High Port"
    &&& m.contains_key(32776) && m[32776] == "RPC High Port"
    &&& m.contains_key(32777) && m[32777] == "RPC High Port"
    &&& m.contains_key(32778) && m[32778] == "RPC High Port"
    &&& m.contains_key(32779) && m[32779] == "RPC High Port"
    &&& m.contains_key(32780) && m[32780] == "RPC High Port"
    &&& m.contains_key(32781) && m[32781] == "RPC High Port"
    &&& m.contains_key(32782) && m[32782] == "RPC High Port"
    &&& m.contains_key(32783) && m[32783] == "RPC High Port"
    &&& m.contains_key(32784) && m[32784] == "RPC High Port"
    &&& m.contains_key(32785) && m[32785] == "RPC High Port"
    &&& m.contains_key(49152) && m[49152] == "Dynamic / Ephemeral Port"
    &&& m.contains_key(49153) && m[49153] == "Dynamic / Ephemeral Port"
    &&& m.contains_key(49154) && m[49154] == "Dynamic / Ephemeral Port"
    &&& m.contains_key(49155) && m[49155] == "Dynamic / Ephemeral Port"
    &&& m.contains_key(49156) && m[49156] == "Dynamic / Ephemeral Port"
    &&& m.contains_key(49157) && m[49157] == "Dynamic / Ephemeral Port"
    &&& m.contains_key(49158) && m[49158] == "Dynamic / Ephemeral Port"
    &&& m.contains_key(49159) && m[49159] == "Dynamic / Ephemeral Port"
    &&& m.contains_key(49160) && m[49160] == "Dynamic / Ephemeral Port"
    &&& m.contains_key(49161) && m[49161] == "Dynamic / Ephemeral Port"
    &&& m.contains_key(49163) && m[49163] == "Dynamic / Ephemeral Port"
    &&& m.contains_key(49165) && m[49165] == "Dynamic / Ephemeral Port"
    &&& m.contains_key(49167) && m[49167] == "Dynamic / Ephemeral Port"
    &&& m.contains_key(49175) && m[49175] == "Dynamic / Ephemeral Port"
    &&& m.contains_key(49176) && m[49176] == "Dynamic / Ephemeral Port"
    &&& m.contains_key(50000) && m[50000] == "DB2"
    &&& m.contains_key(50070) && m[50070] == "Hadoop NameNode"
    &&& m.contains_key(50075) && m[50075] == "Hadoop DataNode"
    &&& m.contains_key(50090) && m[50090] == "Hadoop Secondary NameNode"
    &&& m.contains_key(50389) && m[50389] == "LDAP Alternate"
    &&& m.contains_key(50636) && m[50636] == "LDAPS Alternate"
    &&& m.contains_key(55555) && m[55555] == "Common Dev/Test Port"
    &&& m.contains_key(58080) && m[58080] == "HTTP Alternate"
    &&& m.contains_key(60443) && m[60443] == "HTTPS Alternate High Port"
    &&& m.contains_key(62078) && m[62078] == "iPhone Sync (lockdown)"
    &&& m.contains_key(65389) && m[65389] == "LDAP Alternate High Port"
    &&& forall|p: u16| #[trigger] m.contains_key(p) ==> (
        p == 1 || p == 3 || p == 4 || p == 6 || p == 7 || p == 9 || p == 13 || p == 17 ||
            p == 19 || p == 20 || p == 21 || p == 22 || p == 23 || p == 24 || p == 25 || p == 26 ||
            p == 30 || p == 32 || p == 33 || p == 37 || p == 42 || p == 43 || p == 49 || p == 53 ||
            p == 67 || p == 68 || p == 69 || p == 70 || p == 79 || p == 80 || p == 81 || p == 82 ||
            p == 83 || p == 84 || p == 85 || p == 88 || p == 89 || p == 90 || p == 99 ||
            p == 100 || p == 106 || p == 109 || p == 110 || p == 111 || p == 113 || p == 119 ||
            p == 123 || p == 125 || p == 135 || p == 137 || p == 138 || p == 139 || p == 143 ||
            p == 144 || p == 146 || p == 161 || p == 162 || p == 163 || p == 177 || p == 179 ||
            p == 194 || p == 199 || p == 211 || p == 212 || p == 222 || p == 255 || p == 389 ||
            p == 406 || p == 407 || p == 416 || p == 417 || p == 425 || p == 427 || p == 443 ||
            p == 444 || p == 445 || p == 458 || p == 464 || p == 465 || p == 500 || p == 512 ||
            p == 513 || p == 514 || p == 515 || p == 520 || p == 524 || p == 541 || p == 543 ||
            p == 544 || p == 545 || p == 548 || p == 554 || p == 555 || p == 563 || p == 587 ||
            p == 591 || p == 593 || p == 616 || p == 617 || p == 625 || p == 631 || p == 636 ||
            p == 646 || p == 648 || p == 666 || p == 667 || p == 668 || p == 683 || p == 687 ||
            p == 691 || p == 700 || p == 705 || p == 711 || p == 714 || p == 720 || p == 722 ||
            p == 726 || p == 749 || p == 765 || p == 777 || p == 783 || p == 787 || p == 800 ||
            p == 801 || p == 808 || p == 843 || p == 873 || p == 880 || p == 888 || p == 898 ||
            p == 900 || p == 901 || p == 902 || p == 903 || p == 911 || p == 912 || p == 981 ||
            p == 987 || p == 989 || p == 990 || p == 992 || p == 993 || p == 994 || p == 995 ||
            p == 999 || p == 1000 || p == 1025 || p == 1026 || p == 1027 || p == 1028 ||
            p == 1029 || p == 1030 || p == 1080 || p == 1110 || p == 1433 || p == 1434 ||
            p == 1521 || p == 1720 || p == 1723 || p == 1883 || p == 1900 || p == 2000 ||
            p == 2001 || p == 2049 || p == 2082 || p == 2083 || p == 2100 || p == 2121 ||
            p == 2181 || p == 2222 || p == 2375 || p == 2376 || p == 2377 || p == 2483 ||
            p == 2484 || p == 2601 || p == 2604 || p == 3000 || p == 3001 || p == 3128 ||
            p == 3268 || p == 3269 || p == 3306 || p == 3389 || p == 3478 || p == 3690 ||
            p == 4000 || p == 4444 || p == 4567 || p == 4662 || p == 5000 || p == 5001 ||
            p == 5060 || p == 5061 || p == 5080 || p == 5432 || p == 5601 || p == 5666 ||
            p == 5672 || p == 5800 || p == 5900 || p == 5901 || p == 5902 || p == 5903 ||
            p == 5904 || p == 5985 || p == 5986 || p == 6000 || p == 6001 || p == 6002 ||
            p == 6003 || p == 6004 || p == 6005 || p == 6379 || p == 6443 || p == 6667 ||
            p == 7000 || p == 7001 || p == 7070 || p == 7199 || p == 7200 || p == 7443 ||
            p == 8000 || p == 8008 || p == 8009 || p == 8010 || p == 8080 || p == 8081 ||
            p == 8082 || p == 8083 || p == 8084 || p == 8085 || p == 8086 || p == 8087 ||
            p == 8088 || p == 8089 || p == 8090 || p == 8181 || p == 8200 || p == 8222 ||
            p == 8333 || p == 8400 || p == 8443 || p == 8500 || p == 8600 || p == 8880 ||
            p == 8881 || p == 8882 || p == 8883 || p == 8884 || p == 8885 || p == 8888 ||
            p == 8899 || p == 9000 || p == 9001 || p == 9042 || p == 9050 || p == 9080 ||
            p == 9090 || p == 9100 || p == 9200 || p == 9418 || p == 9443 || p == 9999 ||
            p == 10000 || p == 10250 || p == 10255 || p == 11211 || p == 24800 || p == 27018 ||
            p == 27019 || p == 28017 || p == 32768 || p == 32769 || p == 32770 || p == 32771 ||
            p == 32772 || p == 32773 || p == 32774 || p == 32775 || p == 32776 || p == 32777 ||
            p == 32778 || p == 32779 || p == 32780 || p == 32781 || p == 32782 || p == 32783 ||
            p == 32784 || p == 32785 || p == 49152 || p == 49153 || p == 49154 || p == 49155 ||
            p == 49156 || p == 49157 || p == 49158 || p == 49159 || p == 49160 || p == 49161 ||
            p == 49163 || p == 49165 || p == 49167 || p == 49175 || p == 49176 || p == 50000 ||
            p == 50070 || p == 50075 || p == 50090 || p == 50389 || p == 50636 || p == 55555 ||
            p == 58080 || p == 60443 || p == 62078 || p == 65389
    )
}

/// Creates a hashmap mapping common port numbers to their usual process name
pub fn port_map() -> (m: HashMap<u16, &'static str>)
    ensures
        m@ == port_names_spec(),
        forall|p: u16| #[trigger] m@.contains_key(p) <==> port_name_table(p) is Some,
        forall|p: u16| port_name_table(p) is Some ==> #[trigger] m@[p] == port_name_table(p).unwrap(),
        // The names themselves, port by port (80 is "HTTP", 443 "HTTPS", ...).
        lists_common_port_names(m@),
{
    let mut m: HashMap<u16, &'static str> = HashMap::new();
    let mut p: u32 = 0;
    while p <= 65535
        invariant
            p <= 65536,
            m@ == Map::new(
                |k: u16| (k as u32) < p && port_name_table(k) is Some,
                |k: u16| port_name_table(k).unwrap(),
            ),
        decreases 65536 - p,
    {
        let port = p as u16;
        match port_name_of(port) {
            Some(name) => {
                m.insert(port, name);
            },
            None => {},
        }
        proof {
            assert(m@ =~= Map::new(
                |k: u16| (k as u32) < p + 1 && port_name_table(k) is Some,
                |k: u16| port_name_table(k).unwrap(),
            ));
        }
        p = p + 1;
    }
    assert(m@ =~= port_names_spec());
    m
}

/// The usual service name of `port`, or `"Unknown"` when it has none.
pub open spec fn port_name_spec(port: u16) -> &'static str {
    match port_name_table(port) {
        Some(name) => name,
        None => "Unknown",
    }
}

/// Looks `port` up in a port map, giving `"Unknown"` for a port it does not hold.
pub fn port_name(map: &HashMap<u16, &'static str>, port: u16) -> (name: &'static str)
    ensures
        name == (if map@.contains_key(port) { map@[port] } else { "Unknown" }),
{
    match map.get(&port) {
        Some(n) => *n,
        None => "Unknown",
    }
}

/// The ports from `start` to `end`, both included (none when `start > end`).
pub open spec fn port_range_spec(start: u16, end: u16) -> Seq<u16> {
    if start <= end {
        Seq::new((end - start + 1) as nat, |i: int| (start + i) as u16)
    } else {
        Seq::empty()
    }
}

/// The ports from `start` to `end`, both included, in increasing order.
pub fn port_range(start: u16, end: u16) -> (v: Vec<u16>)
    ensures
        v@ == port_range_spec(start, end),
{
    let mut v: Vec<u16> = Vec::new();
    if start > end {
        return v;
    }
    let mut p: u32 = start as u32;
    while p <= end as u32
        invariant
            start <= end,
            start <= p <= end + 1,
            v@ == Seq::new((p - start) as nat, |i: int| (start + i) as u16),
        decreases end + 1 - p,
    {
        v.push(p as u16);
        proof {
            assert(v@ =~= Seq::new((p + 1 - start) as nat, |i: int| (start + i) as u16));
        }
        p = p + 1;
    }
    v
}

/// The ports a scan probes: the given range (a missing start is 0, a missing end
/// is 65535) when either end is given, else the common ports.
pub open spec fn scan_ports_spec(start_range: Option<u16>, end_range: Option<u16>) -> Seq<u16> {
    if start_range is Some || end_range is Some {
        port_range_spec(
            match start_range { Some(s) => s, None => 0 },
            match end_range { Some(e) => e, None => 65535 },
        )
    } else {
        common_ports_spec()
    }
}

#[verifier::external_type_specification]
#[verifier::external_body]
pub struct ExThreadRng(rand::rngs::ThreadRng);

/// `rand::rng`: a handle on the thread-local random number generator.
#[verifier::external_body]
fn thread_rng() -> rand::rngs::ThreadRng {
    rand::rng()
}

/// `SliceRandom::shuffle`: puts the ports in a random order. The shuffle only
/// swaps elements, so the same ports remain, each as often as before; which order
/// comes out is left open.
#[verifier::external_body]
fn shuffle_ports(ports: &mut Vec<u16>, rng: &mut rand::rngs::ThreadRng)
    ensures
        final(ports)@.to_multiset() == old(ports)@.to_multiset(),
        final(ports)@.len() == old(ports)@.len(),
{
    ports.shuffle(rng);
}

/// The ports of a scan, handed out one by one in a random order.
pub struct PortIter {
    ports: Vec<u16>,
    pos: usize,
}

impl View for PortIter {
    type V = Seq<u16>;

    /// The ports still to come, in the order they will come.
    closed spec fn view(&self) -> Seq<u16> {
        self.ports@.subrange(self.pos as int, self.ports@.len() as int)
    }
}

impl PortIter {
    #[verifier::type_invariant]
    spec fn well_formed(self) -> bool {
        self.pos <= self.ports@.len()
    }

    /// The ports of the given range (see `scan_ports_spec`), or the common ports
    /// when neither end is given, in a random order.
    pub fn new(start_range: Option<u16>, end_range: Option<u16>) -> (it: Self)
        ensures
            it@.to_multiset() == scan_ports_spec(start_range, end_range).to_multiset(),
            it@.len() == scan_ports_spec(start_range, end_range).len(),
    {
        let mut ports = if start_range.is_some() || end_range.is_some() {
            let start = match start_range {
                Some(s) => s,
                None => 0,
            };
            let end = match end_range {
                Some(e) => e,
                None => 65535,
            };
            port_range(start, end)
        } else {
            common_ports()
        };
        let mut rng = thread_rng();
        shuffle_ports(&mut ports, &mut rng);
        let it = PortIter { ports, pos: 0 };
        assert(it@ =~= ports@);
        it
    }

    /// The next port, if any is left.
    pub fn next(&mut self) -> (r: Option<u16>)
        ensures
            old(self)@.len() > 0 ==> r == Some(old(self)@[0]) && final(self)@ == old(self)@.drop_first(),
            old(self)@.len() == 0 ==> r is None && final(self)@ == old(self)@,
    {
        proof {
            use_type_invariant(&*self);
        }
        if self.pos < self.ports.len() {
            let p = self.ports[self.pos];
            self.pos = self.pos + 1;
            proof {
                assert(self@ =~= old(self)@.drop_first());
            }
            Some(p)
        } else {
            None
        }
    }

    /// The number of ports still to come.
    pub fn count(&self) -> (n: usize)
        ensures
            n == self@.len(),
    {
        proof {
            use_type_invariant(self);
        }
        self.ports.len() - self.pos
    }
}

/// A scan of a port range probes every port of the range exactly once and no
/// other port.
pub proof fn law_range_scan_visits_each_port_once(start: u16, end: u16, p: u16)
    ensures
        port_range_spec(start, end).to_multiset().count(p) == (if start <= p <= end {
            1nat
        } else {
            0nat
        }),
{
    broadcast use vstd::seq_lib::group_to_multiset_ensures;

    let s = port_range_spec(start, end);
    assert(s.no_duplicates()) by {
        assert forall|i: int, j: int| 0 <= i < s.len() && 0 <= j < s.len() && i != j implies s[i]
            != s[j] by {}
    }
    s.lemma_multiset_has_no_duplicates();
    if start <= p <= end {
        assert(s[(p - start) as int] == p);
        assert(s.contains(p));
    } else {
        assert(!s.contains(p));
    }
}



/// Each common port is listed after a smaller one.
#[verifier::rlimit(100)]
proof fn lemma_common_ports_steps()
    ensures
        common_ports_spec().len() == 1000,
        forall|i: int| 0 <= i < 999 ==> #[trigger] common_ports_spec()[i] < common_ports_spec()[i + 1],
{
    let s = common_ports_spec();
    assert(s.len() == 1000);
    assert forall|i: int| 0 <= i < 999 implies #[trigger] s[i] < s[i + 1] by {}
}

/// In a sequence whose every step goes up, a later element is greater.
proof fn lemma_increasing_from(s: Seq<u16>, i: int, j: int)
    requires
        0 <= i < j < s.len(),
        forall|k: int| 0 <= k < s.len() - 1 ==> #[trigger] s[k] < s[k + 1],
    ensures
        s[i] < s[j],
    decreases j - i,
{
    if j > i + 1 {
        lemma_increasing_from(s, i, j - 1);
        assert(s[j - 1] < s[j]);
    } else {
        assert(s[i] < s[i + 1]);
    }
}

/// The common ports are listed in increasing order, so none is listed twice: a
/// scan of the common ports probes each of them exactly once.
pub proof fn law_common_ports_distinct()
    ensures
        forall|i: int, j: int|
            0 <= i < j < common_ports_spec().len() ==> #[trigger] common_ports_spec()[i]
                < #[trigger] common_ports_spec()[j],
        common_ports_spec().no_duplicates(),
        forall|p: u16| #[trigger] common_ports_spec().to_multiset().count(p) == (if common_ports_spec().contains(p) {
            1nat
        } else {
            0nat
        }),
{
    broadcast use vstd::seq_lib::group_to_multiset_ensures;

    lemma_common_ports_steps();
    let s = common_ports_spec();
    assert forall|i: int, j: int| 0 <= i < j < s.len() implies #[trigger] s[i] < #[trigger] s[j] by {
        lemma_increasing_from(s, i, j);
    }
    assert(s.no_duplicates());
    s.lemma_multiset_has_no_duplicates();
}

} // verus!
