use vstd::prelude::*;

verus! {

/// Number of field elements in the permutation state.
pub const STATE_WIDTH: usize = 12;

/// Number of rounds of the permutation.
pub const NUM_ROUNDS: usize = 7;

/// Length of one hashing cycle in an execution trace: one row per round plus an idle row.
pub const HASH_CYCLE_LEN: usize = 8;

/// Number of capacity elements at the start of the state.
pub const CAPACITY_WIDTH: usize = 4;

/// Number of rate elements after the capacity segment.
pub const RATE_WIDTH: usize = 8;

/// Number of field elements in a digest.
pub const DIGEST_WIDTH: usize = 4;

/// Forward diffusion matrix of the permutation (canonical field elements).
pub const MDS: [[u64; STATE_WIDTH]; STATE_WIDTH] = [
    [
        2108866337646019936,
        11223275256334781131,
        2318414738826783588,
        11240468238955543594,
        8007389560317667115,
        11080831380224887131,
        3922954383102346493,
        17194066286743901609,
        152620255842323114,
        7203302445933022224,
        17781531460838764471,
        2306881200,
    ],
    [
        3368836954250922620,
        5531382716338105518,
        7747104620279034727,
        14164487169476525880,
        4653455932372793639,
        5504123103633670518,
        3376629427948045767,
        1687083899297674997,
        8324288417826065247,
        17651364087632826504,
        15568475755679636039,
        4656488262337620150,
    ],
    [
        2560535215714666606,
        10793518538122219186,
        408467828146985886,
        13894393744319723897,
        17856013635663093677,
        14510101432365346218,
        12175743201430386993,
        12012700097100374591,
        976880602086740182,
        3187015135043748111,
        4630899319883688283,
        17674195666610532297,
    ],
    [
        10940635879119829731,
        9126204055164541072,
        13441880452578323624,
        13828699194559433302,
        6245685172712904082,
        3117562785727957263,
        17389107632996288753,
        3643151412418457029,
        10484080975961167028,
        4066673631745731889,
        8847974898748751041,
        9548808324754121113,
    ],
    [
        15656099696515372126,
        309741777966979967,
        16075523529922094036,
        5384192144218250710,
        15171244241641106028,
        6660319859038124593,
        6595450094003204814,
        15330207556174961057,
        2687301105226976975,
        15907414358067140389,
        2767130804164179683,
        8135839249549115549,
    ],
    [
        14687393836444508153,
        8122848807512458890,
        16998154830503301252,
        2904046703764323264,
        11170142989407566484,
        5448553946207765015,
        9766047029091333225,
        3852354853341479440,
        14577128274897891003,
        11994931371916133447,
        8299269445020599466,
        2859592328380146288,
    ],
    [
        4920761474064525703,
        13379538658122003618,
        3169184545474588182,
        15753261541491539618,
        622292315133191494,
        14052907820095169428,
        5159844729950547044,
        17439978194716087321,
        9945483003842285313,
        13647273880020281344,
        14750994260825376,
        12575187259316461486,
    ],
    [
        3371852905554824605,
        8886257005679683950,
        15677115160380392279,
        13242906482047961505,
        12149996307978507817,
        1427861135554592284,
        4033726302273030373,
        14761176804905342155,
        11465247508084706095,
        12112647677590318112,
        17343938135425110721,
        14654483060427620352,
    ],
    [
        5421794552262605237,
        14201164512563303484,
        5290621264363227639,
        1020180205893205576,
        14311345105258400438,
        7828111500457301560,
        9436759291445548340,
        5716067521736967068,
        15357555109169671716,
        4131452666376493252,
        16785275933585465720,
        11180136753375315897,
    ],
    [
        10451661389735482801,
        12128852772276583847,
        10630876800354432923,
        6884824371838330777,
        16413552665026570512,
        13637837753341196082,
        2558124068257217718,
        4327919242598628564,
        4236040195908057312,
        2081029262044280559,
        2047510589162918469,
        6835491236529222042,
    ],
    [
        5675273097893923172,
        8120839782755215647,
        9856415804450870143,
        1960632704307471239,
        15279057263127523057,
        17999325337309257121,
        72970456904683065,
        8899624805082057509,
        16980481565524365258,
        6412696708929498357,
        13917768671775544479,
        5505378218427096880,
    ],
    [
        10318314766641004576,
        17320192463105632563,
        11540812969169097044,
        7270556942018024148,
        4755326086930560682,
        2193604418377108959,
        11681945506511803967,
        8000243866012209465,
        6746478642521594042,
        12096331252283646217,
        13208137848575217268,
        5548519654341606996,
    ],
];

/// Inverse of the forward diffusion matrix over the field.
pub const INV_MDS: [[u64; STATE_WIDTH]; STATE_WIDTH] = [
    [
        1025714968950054217,
        2820417286206414279,
        4993698564949207576,
        12970218763715480197,
        15096702659601816313,
        5737881372597660297,
        13327263231927089804,
        4564252978131632277,
        16119054824480892382,
        6613927186172915989,
        6454498710731601655,
        2510089799608156620,
    ],
    [
        14311337779007263575,
        10306799626523962951,
        7776331823117795156,
        4922212921326569206,
        8669179866856828412,
        936244772485171410,
        4077406078785759791,
        2938383611938168107,
        16650590241171797614,
        16578411244849432284,
        17600191004694808340,
        5913375445729949081,
    ],
    [
        13640353831792923980,
        1583879644687006251,
        17678309436940389401,
        6793918274289159258,
        3594897835134355282,
        2158539885379341689,
        12473871986506720374,
        14874332242561185932,
        16402478875851979683,
        9893468322166516227,
        8142413325661539529,
        3444000755516388321,
    ],
    [
        14009777257506018221,
        18218829733847178457,
        11151899210182873569,
        14653120475631972171,
        9591156713922565586,
        16622517275046324812,
        3958136700677573712,
        2193274161734965529,
        15125079516929063010,
        3648852869044193741,
        4405494440143722315,
        15549070131235639125,
    ],
    [
        14324333194410783741,
        12565645879378458115,
        4028590290335558535,
        17936155181893467294,
        1833939650657097992,
        14310984655970610026,
        4701042357351086687,
        1226379890265418475,
        2550212856624409740,
        5670703442709406167,
        3281485106506301394,
        9804247840970323440,
    ],
    [
        7778523590474814059,
        7154630063229321501,
        17790326505487126055,
        3160574440608126866,
        7292349907185131376,
        1916491575080831825,
        11523142515674812675,
        2162357063341827157,
        6650415936886875699,
        11522955632464608509,
        16740856792338897018,
        16987840393715133187,
    ],
    [
        14499296811525152023,
        118549270069446537,
        3041471724857448013,
        3827228106225598612,
        2081369067662751050,
        15406142490454329462,
        8943531526276617760,
        3545513411057560337,
        11433277564645295966,
        9558995950666358829,
        7443251815414752292,
        12335092608217610725,
    ],
    [
        184304165023253232,
        11596940249585433199,
        18170668175083122019,
        8318891703682569182,
        4387895409295967519,
        14599228871586336059,
        2861651216488619239,
        567601091253927304,
        10135289435539766316,
        14905738261734377063,
        3345637344934149303,
        3159874422865401171,
    ],
    [
        1134458872778032479,
        4102035717681749376,
        14030271225872148070,
        10312336662487337312,
        12938229830489392977,
        17758804398255988457,
        15482323580054918356,
        1010277923244261213,
        12904552397519353856,
        5073478003078459047,
        11514678194579805863,
        4419017610446058921,
    ],
    [
        2916054498252226520,
        9880379926449218161,
        15314650755395914465,
        8335514387550394159,
        8955267746483690029,
        16353914237438359160,
        4173425891602463552,
        14892581052359168234,
        17561678290843148035,
        7292975356887551984,
        18039512759118984712,
        5411253583520971237,
    ],
    [
        9848042270158364544,
        809689769037458603,
        5884047526712050760,
        12956871945669043745,
        14265127496637532237,
        6211568220597222123,
        678544061771515015,
        16295989318674734123,
        11782767968925152203,
        1359397660819991739,
        16148400912425385689,
        14440017265059055146,
    ],
    [
        1634272668217219807,
        16290589064070324125,
        5311838222680798126,
        15044064140936894715,
        15775025788428030421,
        12586374713559327349,
        8118943473454062014,
        13223746794660766349,
        13059674280609257192,
        16605443174349648289,
        13586971219878687822,
        16337009014471658360,
    ],
];

/// Round constants added after the first half of each round.
pub const ARK1: [[u64; STATE_WIDTH]; NUM_ROUNDS] = [
    [
        13917550007135091859,
        16002276252647722320,
        4729924423368391595,
        10059693067827680263,
        9804807372516189948,
        15666751576116384237,
        10150587679474953119,
        13627942357577414247,
        2323786301545403792,
        615170742765998613,
        8870655212817778103,
        10534167191270683080,
    ],
    [
        14572151513649018290,
        9445470642301863087,
        6565801926598404534,
        12667566692985038975,
        7193782419267459720,
        11874811971940314298,
        17906868010477466257,
        1237247437760523561,
        6829882458376718831,
        2140011966759485221,
        1624379354686052121,
        50954653459374206,
    ],
    [
        16288075653722020941,
        13294924199301620952,
        13370596140726871456,
        611533288599636281,
        12865221627554828747,
        12269498015480242943,
        8230863118714645896,
        13466591048726906480,
        10176988631229240256,
        14951460136371189405,
        5882405912332577353,
        18125144098115032453,
    ],
    [
        6076976409066920174,
        7466617867456719866,
        5509452692963105675,
        14692460717212261752,
        12980373618703329746,
        1361187191725412610,
        6093955025012408881,
        5110883082899748359,
        8578179704817414083,
        9311749071195681469,
        16965242536774914613,
        5747454353875601040,
    ],
    [
        13684212076160345083,
        19445754899749561,
        16618768069125744845,
        278225951958825090,
        4997246680116830377,
        782614868534172852,
        16423767594935000044,
        9990984633405879434,
        16757120847103156641,
        2103861168279461168,
        16018697163142305052,
        6479823382130993799,
    ],
    [
        13957683526597936825,
        9702819874074407511,
        18357323897135139931,
        3029452444431245019,
        1809322684009991117,
        12459356450895788575,
        11985094908667810946,
        12868806590346066108,
        7872185587893926881,
        10694372443883124306,
        8644995046789277522,
        1422920069067375692,
    ],
    [
        17619517835351328008,
        6173683530634627901,
        15061027706054897896,
        4503753322633415655,
        11538516425871008333,
        12777459872202073891,
        17842814708228807409,
        13441695826912633916,
        5950710620243434509,
        17040450522225825296,
        8787650312632423701,
        7431110942091427450,
    ],
];

/// Round constants added after the second half of each round.
pub const ARK2: [[u64; STATE_WIDTH]; NUM_ROUNDS] = [
    [
        7989257206380839449,
        8639509123020237648,
        6488561830509603695,
        5519169995467998761,
        2972173318556248829,
        14899875358187389787,
        14160104549881494022,
        5969738169680657501,
        5116050734813646528,
        12120002089437618419,
        17404470791907152876,
        2718166276419445724,
    ],
    [
        2485377440770793394,
        14358936485713564605,
        3327012975585973824,
        6001912612374303716,
        17419159457659073951,
        11810720562576658327,
        14802512641816370470,
        751963320628219432,
        9410455736958787393,
        16405548341306967018,
        6867376949398252373,
        13982182448213113532,
    ],
    [
        10436926105997283389,
        13237521312283579132,
        668335841375552722,
        2385521647573044240,
        3874694023045931809,
        12952434030222726182,
        1972984540857058687,
        14000313505684510403,
        976377933822676506,
        8407002393718726702,
        338785660775650958,
        4208211193539481671,
    ],
    [
        2284392243703840734,
        4500504737691218932,
        3976085877224857941,
        2603294837319327956,
        5760259105023371034,
        2911579958858769248,
        18415938932239013434,
        7063156700464743997,
        16626114991069403630,
        163485390956217960,
        11596043559919659130,
        2976841507452846995,
    ],
    [
        15090073748392700862,
        3496786927732034743,
        8646735362535504000,
        2460088694130347125,
        3944675034557577794,
        14781700518249159275,
        2857749437648203959,
        8505429584078195973,
        18008150643764164736,
        720176627102578275,
        7038653538629322181,
        8849746187975356582,
    ],
    [
        17427790390280348710,
        1159544160012040055,
        17946663256456930598,
        6338793524502945410,
        17715539080731926288,
        4208940652334891422,
        12386490721239135719,
        10010817080957769535,
        5566101162185411405,
        12520146553271266365,
        4972547404153988943,
        5597076522138709717,
    ],
    [
        18338863478027005376,
        115128380230345639,
        4427489889653730058,
        10890727269603281956,
        7094492770210294530,
        7345573238864544283,
        6834103517673002336,
        14002814950696095900,
        15939230865809555943,
        12717309295554119359,
        4130723396860574906,
        7706153020203677238,
    ],
];

} // verus!
