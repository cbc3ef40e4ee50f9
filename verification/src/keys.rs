//! The piece keys written out, and what follows of them: the key generator
//! does not come back to its seed within the keys of a table, so no two keys
//! of a table are equal, and none is zero.
//!
//! The tables here serve the proofs alone. A table of the engine still draws
//! its keys from the generator.

use crate::tt::{random_key, xorshift, KEY_SEED};
use vstd::prelude::*;

verus! {

/// The keys of White's pawns on squares 0 to 63: outputs 1 to 64 of the key
/// generator.
pub const WHITE_PAWN_KEYS: [u64; 64] = [
    132100702508589007, 14571250924493977904, 3156334742818316866, 1914567331323306758,
    15661909923144125760, 8359656556782340826, 6920732351917961679, 6055851353308732780,
    46036552645792854, 16746132141464568958, 12480443196694259062, 3554902874140816700,
    8304765054489403734, 3662642037190976148, 3975041777088994129, 15217434586450336551,
    10990670698354149841, 7423612903433485954, 15059548070922358655, 8037698563660795553,
    15601395758965821564, 5865066667751042140, 14044198091907066500, 876422217740609105,
    3394198943410336477, 18170369297893839096, 11954164048574295641, 16924824870599168069,
    277009877901485093, 12232817140250911277, 11078710944795584297, 1048287666788140711,
    4068833196506572394, 16065614967791915558, 2479910476297864322, 13064063260990072331,
    9255208119062532615, 17039087573071094499, 4807450320233260006, 15705073979997353121,
    3582204100722822408, 7025597313967939346, 5995344918929810732, 13199606364351786086,
    8043187853898018110, 11683507549270558052, 5331375870436550638, 5162680403312604961,
    207019201706474895, 8370909018432369204, 5248867995887465424, 4052258287297401911,
    13210958425232737503, 13174626562881467414, 3071928726275719934, 1245159432242006651,
    7801634626892460719, 5824581546233046666, 2247961600273927239, 2412380697186806303,
    6905931578193929611, 14653261123137841792, 4856997650006266581, 12936753223648069680,
];

/// The keys of White's knights on squares 0 to 63: outputs 65 to 128 of the key
/// generator.
pub const WHITE_KNIGHT_KEYS: [u64; 64] = [
    2051918279205591456, 857208310349311379, 8859556484774817032, 6081632249593309906,
    8218698379042520327, 17590472663715810365, 3117480040355242853, 10331807266675861347,
    3225353980185417965, 1995761699509253020, 4084924990942248187, 11558939812537325250,
    7180795675024520943, 18133547448291283906, 13330584706839432421, 5709405049084052284,
    15042927903987972154, 15855227299635458506, 3547346943198393001, 4905723837966002188,
    11081306816460810588, 10001218911787006862, 14569123978507284345, 9378400011386129383,
    187562290680099632, 15478860310394323670, 267412017532359635, 16929352160449796276,
    4980133224422474117, 3650345858864637382, 2560469522065373069, 3140292641685644194,
    8447431361157427045, 2868215520293652219, 5514261090482774838, 9961405584596277616,
    619825680992087362, 342027493450307736, 1838146457699874089, 1012290164351381635,
    10898578222734041634, 11868015932862076774, 11620359469542103496, 6189151293361022331,
    2897664452079978097, 16192587331868670013, 145488516975631373, 9892138854587943285,
    7809095684788727719, 3745287568256178744, 7325329755559830796, 8617313933075126854,
    10109118878052787442, 12481445094381340731, 5041819857251429995, 8356689619795468919,
    11253979985747520371, 14783200959589202917, 4992903779080629458, 8169893019025310859,
    17331191971663913794, 15992846120335438212, 4536101836306593639, 12110772138286912713,
];

/// The keys of White's bishops on squares 0 to 63: outputs 129 to 192 of the key
/// generator.
pub const WHITE_BISHOP_KEYS: [u64; 64] = [
    2189891420089914016, 8528670572688080773, 6389807857958384186, 3685930680842521438,
    6722564121371915976, 5374358336442619301, 3154499540850653262, 2971250546917505470,
    6589694650569142733, 17739851241580399854, 18278509023593607031, 3719741889381446121,
    11539572249335208650, 5180267140473569663, 12716270910557971005, 5355919241772739769,
    10302347398181041312, 1141025145510534345, 9043978460920573360, 14270728560949979499,
    2325862720577351801, 11155507529951715929, 10725779894255090525, 2293791433090056171,
    15266953859342037076, 14482362802197126580, 1730693291211432975, 14086100113778956679,
    2406602729948191988, 7474290740848998861, 2394930183921008126, 7239216479563330437,
    4959389504204439458, 5769553815269251293, 5215012466868957356, 8134536433992167885,
    4949477014633153646, 17000662060199643366, 17138645209254503287, 11851178461583294449,
    7141190613502508750, 5822643790384831027, 8910672547119136199, 4752017475213874428,
    5098351794831216469, 2900899291365211531, 5512465734842809776, 6639409394658161483,
    1818056480261143277, 14148878348681739864, 16974536288765063076, 15069588530891417083,
    10240807901256831472, 17895318392626214739, 2926942533452807293, 8180917387999435845,
    9131576841105139389, 6614532881774930736, 5377363863973891302, 2705747159962495615,
    10565621952991885803, 3057718016652554200, 4922842201538830215, 2372676171986440824,
];

/// The keys of White's rooks on squares 0 to 63: outputs 193 to 256 of the key
/// generator.
pub const WHITE_ROOK_KEYS: [u64; 64] = [
    18255874275685047900, 11355974834871780704, 2098514138412744938, 9223499332057108075,
    319690562464863927, 9180116162567970266, 13184111301277054049, 11514218674495448521,
    12334055477646378818, 3728660642943562316, 8761837293000008616, 16566753997090773999,
    16199149088796574104, 17931541523773507483, 4985968557655989972, 386160741911994345,
    15551889798779436694, 8356361932994450155, 9109818835477970446, 4745419411824335602,
    11094810301997954759, 5996441186450422378, 14146260681673682078, 16717796642051633991,
    6737279086667492321, 3579924252052407414, 5181742801843183230, 9776901263159072834,
    10628702224300449010, 15344987378405591627, 7527075451268454175, 1042934401122674289,
    17144781729121435005, 14377444126426318279, 14028883154989744524, 18058641380334281359,
    2607579239047896074, 8395682846835350194, 4354034026690910727, 1541624142545665011,
    15765621149691679812, 6066720517108400492, 13659303368925412974, 10791560926121039122,
    17764357666384367032, 12896317010502091811, 17424448218380300523, 4731895877196896202,
    319443018604514533, 10446479344995063996, 5908681033616110093, 16166213197028531241,
    14300825845110278737, 9917433805778301445, 8377303241099716641, 8199184959621887025,
    10323126054203302297, 1029609648759626650, 14547252180681309869, 3835179259493361552,
    1577910506499464159, 12369727565175869352, 1276247880826876215, 17366671017093321493,
];

/// The keys of White's queens on squares 0 to 63: outputs 257 to 320 of the key
/// generator.
pub const WHITE_QUEEN_KEYS: [u64; 64] = [
    6752679932585500915, 7516016594024655346, 16951039067764054689, 9690394303595897428,
    17807092283063004560, 320838022213118539, 17551945339804499935, 559028101598319968,
    14882973224815671370, 2870527839681083834, 2661869310122674633, 8291337644326509338,
    10594342753127076396, 15516645683958851080, 15514783162760972868, 13892376233430315984,
    9770932286804911415, 12019619751289259325, 2907097746469081463, 4670197271376375061,
    14403822760231570959, 13541916838471989715, 8548915253207559392, 11265255116630614329,
    8499860213331384763, 14236667342508980424, 13449932683934992185, 16157750579395416183,
    5819895582497529367, 10536339463000521067, 11359108188445631833, 15827246074800571347,
    3352514749580953876, 1918565470724227974, 8038489159520391169, 10985265918516700513,
    1699395119188218987, 13180039619915878531, 14326051109940232802, 14736408156535059174,
    7227597845298178691, 12305827632004360854, 16906948564670845891, 8425728168379744292,
    15107946090544957220, 179852707908489258, 3295778113194022026, 3352296393083677091,
    12447216190962157488, 17680105443079372607, 3269626315170673793, 9389167346102926376,
    14072142845598311632, 10346503666302251673, 7511093035020387644, 6069220745165230134,
    13329623398315826966, 6551451184885934504, 6571429562054714363, 9974610315636881020,
    1769704472344354320, 17408370955552807084, 12631684495032816669, 6173420739096692853,
];

/// The keys of White's king on squares 0 to 63: outputs 321 to 384 of the key
/// generator.
pub const WHITE_KING_KEYS: [u64; 64] = [
    1686845967640310693, 14922192770166979202, 12120542885227262711, 16082512326503176402,
    15125789541959486563, 8799993401792435259, 2211862896652961747, 2135591583966554268,
    16606371735271835725, 12571773456003585309, 11118674171542650103, 10133032047316425038,
    11198996563951987068, 6252712119871089966, 2656350717334504180, 15624427309393303665,
    3683678444213796225, 8886476942621506874, 3267471956586544448, 1063370932577150266,
    3497403988583371504, 17484763987727120725, 6591779934798251239, 13455701883025176622,
    470279669351479774, 11903584329077251757, 1823935513513249104, 4378807608474159042,
    11901101771701302733, 11529704775551281382, 6868935617621567159, 13987312212506923578,
    10338569532209329694, 1209388459848054642, 5264908258362641820, 13835320898192824583,
    18417714362355178613, 9992641468066723213, 6186744980548836902, 2602215867937653018,
    619096144847739288, 7408487377510011563, 9077664327792082510, 12338513274890550706,
    10396971700798178505, 7531332559802657792, 16215166091589407192, 18093405871615929723,
    3621258638919800673, 11801997855004011791, 16486564763384009109, 13445687431033317238,
    10427315447276020536, 13582798779910767742, 5614914617185303158, 12933702203636241154,
    6962424040317028900, 4899183836197288496, 8355377604307765700, 2134793786961310039,
    331073780870779125, 13416993481005691540, 7287329754017263985, 16398265271825704915,
];

/// The keys of Black's pawns on squares 0 to 63: outputs 385 to 448 of the key
/// generator.
pub const BLACK_PAWN_KEYS: [u64; 64] = [
    8953852771652052060, 2160152608600218644, 5455280367610242732, 13703657916300995041,
    10449602155951448050, 17422270166499896269, 8277560683310465498, 15373245074255256793,
    14738917189754949280, 4962280784402176701, 16886709680472376904, 9831784027709193668,
    2296789522125497023, 8275509850155659066, 1743550429252365796, 16937478415089923775,
    3962412507360736914, 18233567303388711039, 8133556532448060719, 8333195259010052389,
    2392131350406045319, 4892738518833320314, 12560358257061172056, 748233032845150334,
    2127468954771583598, 413461752678580234, 11217295947816664714, 11091350346818554103,
    6008991119177504806, 9479609318262803222, 3448359517037305216, 1178955752504839355,
    13725722943652621026, 14088125508163517879, 3983604718207719692, 2818341391781344446,
    1298443914059778903, 11389912117623891073, 17714304292162724744, 15537906131430904655,
    15051687469339130793, 15748837396660068766, 16132501964420585821, 14887556746757818159,
    13545284523121548385, 3945947752607000345, 5743433827003402519, 8623666607012031685,
    9407941280695750364, 10440272280655203521, 377242035319014296, 12497875981350991775,
    4706362520912752560, 11462137069187558767, 2668469488748450677, 15487129455853833619,
    10500708495304972616, 1296573439033615354, 15542605447796490557, 12880358206970266239,
    17731245762565504443, 599503935019436160, 15573587169645230097, 473592928684232097,
];

/// The keys of Black's knights on squares 0 to 63: outputs 449 to 512 of the key
/// generator.
pub const BLACK_KNIGHT_KEYS: [u64; 64] = [
    12860753144650120570, 6982890152738559104, 6195299209481955497, 9376329169625284280,
    17566840890161240901, 9456367555674494515, 11679487764821653855, 16290282817238196461,
    655371014776305772, 2662133231251884828, 2658513435096931338, 10759887490954232370,
    13867572541008588982, 12701815762595369815, 4305683371470589489, 3438259668496924013,
    14467202124892068183, 12967799467424514853, 3499450768490514275, 3748391190849277741,
    14790303525054556403, 12526106321210302306, 18282060694459072604, 4176024210195377628,
    14018485625519528455, 3517474231437672051, 822918475147091919, 9823481232757748528,
    15543809716566836438, 12772921318404704223, 2539699640062958992, 8298041202909183531,
    3903014144874249495, 17767498789630722861, 10967627350172374763, 15350472798470473734,
    14927186023003818902, 4649880199999589633, 9257863368584093531, 4832025719432803621,
    4900128035279254415, 18250287737530495272, 1144785754317726538, 11160882141753811852,
    591208337457920459, 11439793134431006840, 7982598909389570712, 8754614606305593501,
    12944782281223412428, 6738840811118823161, 6246276335277396404, 194315432436824599,
    10467620210538320931, 11715416907716284619, 5874493510856053674, 4689250497854040589,
    9999023427588332185, 17054809200437752044, 10809414691970614285, 16459638993945313093,
    8530588029257826427, 18081978352941893435, 5425399744433088245, 8739679876897579128,
];

/// The keys of Black's bishops on squares 0 to 63: outputs 513 to 576 of the key
/// generator.
pub const BLACK_BISHOP_KEYS: [u64; 64] = [
    14250742959397471800, 13276427999851780660, 4693635614257805568, 17703898222757860338,
    11632178578132574933, 1061729517339490256, 6986024288101458367, 11117578823457537468,
    8658438622285708359, 8548554809671218431, 9372741144761137878, 11386288220197934755,
    15493550827643545550, 15361577886885304833, 8577245997847375093, 16024971585578425196,
    15883521328527065818, 5192986413709512927, 15402458793344707774, 3725462269658402151,
    2126442994537565373, 11313041343003102436, 10554883522072523261, 11139507091996929502,
    531039586974928261, 473233421813863390, 14188177683402586617, 4273459042042121290,
    18080584215483804370, 10641893206560766599, 7785816883578363826, 14241322886759000461,
    15715792482426370206, 15167036605743059311, 10978124564964554765, 14234221341862755389,
    15625241754686576005, 5192304592881416046, 17987660003996322304, 13916783345577242004,
    1484044942156341455, 18101166065746939982, 684464838062122222, 14673681126740016935,
    1374089314814489753, 9267389504345679920, 13812618484651806304, 5134886557901816572,
    2100144662514559225, 1793619471114293096, 3003639526348615414, 4757586516976679595,
    6742166645731219998, 8998029502480386602, 773173217345169598, 979280155930587119,
    14460141275178425840, 9048262217813709643, 9370218809478536749, 17321294099795130577,
    7406611496768576480, 2398276519585615319, 4787075655518914316, 6114924743774962690,
];

/// The keys of Black's rooks on squares 0 to 63: outputs 577 to 640 of the key
/// generator.
pub const BLACK_ROOK_KEYS: [u64; 64] = [
    13756000937331698826, 7842792555173117779, 4184261979557338221, 16006787115669374741,
    9743324394189564379, 12947581945083993416, 16284321545070162802, 1207643354051077268,
    13861772373331142493, 241380423110157267, 9422138347541895892, 16740235146134260705,
    7522147782432324790, 15611394551418629327, 511501368006275670, 16229376149976637490,
    17113909818976155506, 15217868877635740316, 10058880575091614553, 11595201363250546271,
    12652269360715901075, 14330358039609860866, 14894843328716952644, 16026835009850724332,
    12117997789101543539, 15368934376256640787, 17549391224798876157, 14050477603713561502,
    5164633154853228409, 13874007748914825127, 12632518559260141032, 9884485165399861795,
    8052105408030478135, 5262752657422480361, 11880478717589977166, 5980502540821018686,
    1893755316135730638, 8528694724121862261, 6839624291662597493, 7877004332580089135,
    12505866800048753333, 5330745566138156128, 17390000365667685096, 8907231724493454029,
    13855658186682376952, 3735550109293134781, 13376139861633245562, 8222064567011610808,
    4896942604955329945, 16207721243017957010, 4032976182992825487, 14905395811586073750,
    12611434896566475999, 1090142983911904678, 17973274238976742413, 9893640797431804389,
    15174461418295824582, 13176264418489051239, 9112504377035522295, 13274064755122313014,
    12081618205364660376, 4966337181492265161, 8054098317871874056, 897332109038822408,
];

/// The keys of Black's queens on squares 0 to 63: outputs 641 to 704 of the key
/// generator.
pub const BLACK_QUEEN_KEYS: [u64; 64] = [
    1692376842984372544, 17564290427345712434, 14748760128298435032, 6953768895907393371,
    559455511195920709, 584954195750401879, 14613230642140915193, 12178489491237939442,
    14059220614004536611, 11115753077011181577, 8968292902470400937, 15193385726158487198,
    7821757510848515171, 5603699291257653691, 2801807104914443752, 6084534690996033907,
    12178575717094038913, 12998067309905637626, 10361272003839957915, 2550817465129841772,
    12084287047940601092, 12261802009447563502, 8439770121587027311, 12478020999794432629,
    3640923034420223489, 16600277313208742269, 13648034136761310943, 13418719318784370978,
    17272382478825275760, 11659393518232896242, 11762575376876763511, 1629309006946810181,
    13845065071955843447, 9718809421703681413, 15208759460724959470, 12525570223009639871,
    13110798719354717220, 2606063502865783980, 2640498316070661653, 17806299889813772809,
    16607695510570017533, 15570182614016720376, 8515092110817581059, 6670681775560015475,
    9003723878641506511, 6969497900412209470, 16652201560990469036, 17430070542871672123,
    5039949295494504593, 6530985917567727760, 14289599270307674977, 1180395252677148247,
    10590735958924544619, 7033134549583134271, 8904801356170742275, 14092351494053320791,
    6440287786603204903, 5573510714899329605, 15434392695525381089, 9688555992971809414,
    4904190398677930275, 11375807281043493185, 3211975660205239715, 667761530082661048,
];

/// The keys of Black's king on squares 0 to 63: outputs 705 to 768 of the key
/// generator.
pub const BLACK_KING_KEYS: [u64; 64] = [
    6197635386907313053, 11253486195983713370, 16931813319198239954, 16187429484533812107,
    10804270493977390172, 11089333657541588996, 10352015542819299444, 13358522340252163892,
    6665783154943549706, 17671716433295311176, 1546566584925508426, 5676311357256577900,
    3792554385829658122, 10412440168972046198, 9026510156927762024, 3273794277679472788,
    9870896444052050133, 2649192641546273460, 6411135021834046513, 13676949678710970473,
    5137360424591165849, 11643714424574877642, 303812271248370805, 18258060105923822317,
    18225400064643546536, 2530886080493075667, 16072645882423665258, 18428137456670161710,
    10829348341863676632, 17077321869974254381, 3468634329168608779, 7425393192271003447,
    13735502258410112905, 4561123323836677446, 5773659610443103676, 4080302795807335623,
    9534996689948817230, 14734987799811161504, 4351826246560841563, 6058975744136625253,
    10691247637084435549, 7704516680132988661, 13734107493501624232, 6018357242958403095,
    5799047095637110139, 18186180785631246433, 6392521240708164433, 1730221934145521223,
    14543434723259358475, 15404786883398162161, 3039091206633806876, 16793521129448901796,
    7590188656012134077, 12555533532898530032, 1886005457166759637, 2685979872599596408,
    8690911490847393986, 14794782263617330131, 13733152644288863524, 1178005519508443038,
    6531734204367611905, 14730383249807555345, 15568181565501609511, 1749856079111551947,
];

/// The written key with the given place among the piece keys.
pub open spec fn written_key(index: int) -> u64 {
    if index < 64 {
        WHITE_PAWN_KEYS[index]
    } else if index < 128 {
        WHITE_KNIGHT_KEYS[index - 64]
    } else if index < 192 {
        WHITE_BISHOP_KEYS[index - 128]
    } else if index < 256 {
        WHITE_ROOK_KEYS[index - 192]
    } else if index < 320 {
        WHITE_QUEEN_KEYS[index - 256]
    } else if index < 384 {
        WHITE_KING_KEYS[index - 320]
    } else if index < 448 {
        BLACK_PAWN_KEYS[index - 384]
    } else if index < 512 {
        BLACK_KNIGHT_KEYS[index - 448]
    } else if index < 576 {
        BLACK_BISHOP_KEYS[index - 512]
    } else if index < 640 {
        BLACK_ROOK_KEYS[index - 576]
    } else if index < 704 {
        BLACK_QUEEN_KEYS[index - 640]
    } else {
        BLACK_KING_KEYS[index - 704]
    }
}

/// The keys of White's pawns are outputs 1 to 64 of the generator, and none is
/// the seed.
proof fn lemma_white_pawn_keys(square: int)
    requires
        0 <= square < 64,
    ensures
        random_key((1 + square) as nat) == WHITE_PAWN_KEYS[square],
        WHITE_PAWN_KEYS[square] != KEY_SEED,
    decreases square,
{
    assert(random_key(0) == 123456789u64);
    assert(xorshift(123456789u64) == 132100702508589007u64
        && xorshift(132100702508589007u64) == 14571250924493977904u64
        && xorshift(14571250924493977904u64) == 3156334742818316866u64
        && xorshift(3156334742818316866u64) == 1914567331323306758u64
        && xorshift(1914567331323306758u64) == 15661909923144125760u64
        && xorshift(15661909923144125760u64) == 8359656556782340826u64
        && xorshift(8359656556782340826u64) == 6920732351917961679u64
        && xorshift(6920732351917961679u64) == 6055851353308732780u64
        && xorshift(6055851353308732780u64) == 46036552645792854u64
        && xorshift(46036552645792854u64) == 16746132141464568958u64
        && xorshift(16746132141464568958u64) == 12480443196694259062u64
        && xorshift(12480443196694259062u64) == 3554902874140816700u64
        && xorshift(3554902874140816700u64) == 8304765054489403734u64
        && xorshift(8304765054489403734u64) == 3662642037190976148u64
        && xorshift(3662642037190976148u64) == 3975041777088994129u64
        && xorshift(3975041777088994129u64) == 15217434586450336551u64
        && xorshift(15217434586450336551u64) == 10990670698354149841u64
        && xorshift(10990670698354149841u64) == 7423612903433485954u64
        && xorshift(7423612903433485954u64) == 15059548070922358655u64
        && xorshift(15059548070922358655u64) == 8037698563660795553u64
        && xorshift(8037698563660795553u64) == 15601395758965821564u64
        && xorshift(15601395758965821564u64) == 5865066667751042140u64
        && xorshift(5865066667751042140u64) == 14044198091907066500u64
        && xorshift(14044198091907066500u64) == 876422217740609105u64
        && xorshift(876422217740609105u64) == 3394198943410336477u64
        && xorshift(3394198943410336477u64) == 18170369297893839096u64
        && xorshift(18170369297893839096u64) == 11954164048574295641u64
        && xorshift(11954164048574295641u64) == 16924824870599168069u64
        && xorshift(16924824870599168069u64) == 277009877901485093u64
        && xorshift(277009877901485093u64) == 12232817140250911277u64
        && xorshift(12232817140250911277u64) == 11078710944795584297u64
        && xorshift(11078710944795584297u64) == 1048287666788140711u64
        && xorshift(1048287666788140711u64) == 4068833196506572394u64
        && xorshift(4068833196506572394u64) == 16065614967791915558u64
        && xorshift(16065614967791915558u64) == 2479910476297864322u64
        && xorshift(2479910476297864322u64) == 13064063260990072331u64
        && xorshift(13064063260990072331u64) == 9255208119062532615u64
        && xorshift(9255208119062532615u64) == 17039087573071094499u64
        && xorshift(17039087573071094499u64) == 4807450320233260006u64
        && xorshift(4807450320233260006u64) == 15705073979997353121u64
        && xorshift(15705073979997353121u64) == 3582204100722822408u64
        && xorshift(3582204100722822408u64) == 7025597313967939346u64
        && xorshift(7025597313967939346u64) == 5995344918929810732u64
        && xorshift(5995344918929810732u64) == 13199606364351786086u64
        && xorshift(13199606364351786086u64) == 8043187853898018110u64
        && xorshift(8043187853898018110u64) == 11683507549270558052u64
        && xorshift(11683507549270558052u64) == 5331375870436550638u64
        && xorshift(5331375870436550638u64) == 5162680403312604961u64
        && xorshift(5162680403312604961u64) == 207019201706474895u64
        && xorshift(207019201706474895u64) == 8370909018432369204u64
        && xorshift(8370909018432369204u64) == 5248867995887465424u64
        && xorshift(5248867995887465424u64) == 4052258287297401911u64
        && xorshift(4052258287297401911u64) == 13210958425232737503u64
        && xorshift(13210958425232737503u64) == 13174626562881467414u64
        && xorshift(13174626562881467414u64) == 3071928726275719934u64
        && xorshift(3071928726275719934u64) == 1245159432242006651u64
        && xorshift(1245159432242006651u64) == 7801634626892460719u64
        && xorshift(7801634626892460719u64) == 5824581546233046666u64
        && xorshift(5824581546233046666u64) == 2247961600273927239u64
        && xorshift(2247961600273927239u64) == 2412380697186806303u64
        && xorshift(2412380697186806303u64) == 6905931578193929611u64
        && xorshift(6905931578193929611u64) == 14653261123137841792u64
        && xorshift(14653261123137841792u64) == 4856997650006266581u64
        && xorshift(4856997650006266581u64) == 12936753223648069680u64) by (bit_vector);
    if square > 0 {
        lemma_white_pawn_keys(square - 1);
    }
}

/// The keys of White's knights are outputs 65 to 128 of the generator, and none is
/// the seed.
proof fn lemma_white_knight_keys(square: int)
    requires
        0 <= square < 64,
    ensures
        random_key((65 + square) as nat) == WHITE_KNIGHT_KEYS[square],
        WHITE_KNIGHT_KEYS[square] != KEY_SEED,
    decreases square,
{
    lemma_white_pawn_keys(63);
    assert(xorshift(12936753223648069680u64) == 2051918279205591456u64
        && xorshift(2051918279205591456u64) == 857208310349311379u64
        && xorshift(857208310349311379u64) == 8859556484774817032u64
        && xorshift(8859556484774817032u64) == 6081632249593309906u64
        && xorshift(6081632249593309906u64) == 8218698379042520327u64
        && xorshift(8218698379042520327u64) == 17590472663715810365u64
        && xorshift(17590472663715810365u64) == 3117480040355242853u64
        && xorshift(3117480040355242853u64) == 10331807266675861347u64
        && xorshift(10331807266675861347u64) == 3225353980185417965u64
        && xorshift(3225353980185417965u64) == 1995761699509253020u64
        && xorshift(1995761699509253020u64) == 4084924990942248187u64
        && xorshift(4084924990942248187u64) == 11558939812537325250u64
        && xorshift(11558939812537325250u64) == 7180795675024520943u64
        && xorshift(7180795675024520943u64) == 18133547448291283906u64
        && xorshift(18133547448291283906u64) == 13330584706839432421u64
        && xorshift(13330584706839432421u64) == 5709405049084052284u64
        && xorshift(5709405049084052284u64) == 15042927903987972154u64
        && xorshift(15042927903987972154u64) == 15855227299635458506u64
        && xorshift(15855227299635458506u64) == 3547346943198393001u64
        && xorshift(3547346943198393001u64) == 4905723837966002188u64
        && xorshift(4905723837966002188u64) == 11081306816460810588u64
        && xorshift(11081306816460810588u64) == 10001218911787006862u64
        && xorshift(10001218911787006862u64) == 14569123978507284345u64
        && xorshift(14569123978507284345u64) == 9378400011386129383u64
        && xorshift(9378400011386129383u64) == 187562290680099632u64
        && xorshift(187562290680099632u64) == 15478860310394323670u64
        && xorshift(15478860310394323670u64) == 267412017532359635u64
        && xorshift(267412017532359635u64) == 16929352160449796276u64
        && xorshift(16929352160449796276u64) == 4980133224422474117u64
        && xorshift(4980133224422474117u64) == 3650345858864637382u64
        && xorshift(3650345858864637382u64) == 2560469522065373069u64
        && xorshift(2560469522065373069u64) == 3140292641685644194u64
        && xorshift(3140292641685644194u64) == 8447431361157427045u64
        && xorshift(8447431361157427045u64) == 2868215520293652219u64
        && xorshift(2868215520293652219u64) == 5514261090482774838u64
        && xorshift(5514261090482774838u64) == 9961405584596277616u64
        && xorshift(9961405584596277616u64) == 619825680992087362u64
        && xorshift(619825680992087362u64) == 342027493450307736u64
        && xorshift(342027493450307736u64) == 1838146457699874089u64
        && xorshift(1838146457699874089u64) == 1012290164351381635u64
        && xorshift(1012290164351381635u64) == 10898578222734041634u64
        && xorshift(10898578222734041634u64) == 11868015932862076774u64
        && xorshift(11868015932862076774u64) == 11620359469542103496u64
        && xorshift(11620359469542103496u64) == 6189151293361022331u64
        && xorshift(6189151293361022331u64) == 2897664452079978097u64
        && xorshift(2897664452079978097u64) == 16192587331868670013u64
        && xorshift(16192587331868670013u64) == 145488516975631373u64
        && xorshift(145488516975631373u64) == 9892138854587943285u64
        && xorshift(9892138854587943285u64) == 7809095684788727719u64
        && xorshift(7809095684788727719u64) == 3745287568256178744u64
        && xorshift(3745287568256178744u64) == 7325329755559830796u64
        && xorshift(7325329755559830796u64) == 8617313933075126854u64
        && xorshift(8617313933075126854u64) == 10109118878052787442u64
        && xorshift(10109118878052787442u64) == 12481445094381340731u64
        && xorshift(12481445094381340731u64) == 5041819857251429995u64
        && xorshift(5041819857251429995u64) == 8356689619795468919u64
        && xorshift(8356689619795468919u64) == 11253979985747520371u64
        && xorshift(11253979985747520371u64) == 14783200959589202917u64
        && xorshift(14783200959589202917u64) == 4992903779080629458u64
        && xorshift(4992903779080629458u64) == 8169893019025310859u64
        && xorshift(8169893019025310859u64) == 17331191971663913794u64
        && xorshift(17331191971663913794u64) == 15992846120335438212u64
        && xorshift(15992846120335438212u64) == 4536101836306593639u64
        && xorshift(4536101836306593639u64) == 12110772138286912713u64) by (bit_vector);
    if square > 0 {
        lemma_white_knight_keys(square - 1);
    }
}

/// The keys of White's bishops are outputs 129 to 192 of the generator, and none is
/// the seed.
proof fn lemma_white_bishop_keys(square: int)
    requires
        0 <= square < 64,
    ensures
        random_key((129 + square) as nat) == WHITE_BISHOP_KEYS[square],
        WHITE_BISHOP_KEYS[square] != KEY_SEED,
    decreases square,
{
    lemma_white_knight_keys(63);
    assert(xorshift(12110772138286912713u64) == 2189891420089914016u64
        && xorshift(2189891420089914016u64) == 8528670572688080773u64
        && xorshift(8528670572688080773u64) == 6389807857958384186u64
        && xorshift(6389807857958384186u64) == 3685930680842521438u64
        && xorshift(3685930680842521438u64) == 6722564121371915976u64
        && xorshift(6722564121371915976u64) == 5374358336442619301u64
        && xorshift(5374358336442619301u64) == 3154499540850653262u64
        && xorshift(3154499540850653262u64) == 2971250546917505470u64
        && xorshift(2971250546917505470u64) == 6589694650569142733u64
        && xorshift(6589694650569142733u64) == 17739851241580399854u64
        && xorshift(17739851241580399854u64) == 18278509023593607031u64
        && xorshift(18278509023593607031u64) == 3719741889381446121u64
        && xorshift(3719741889381446121u64) == 11539572249335208650u64
        && xorshift(11539572249335208650u64) == 5180267140473569663u64
        && xorshift(5180267140473569663u64) == 12716270910557971005u64
        && xorshift(12716270910557971005u64) == 5355919241772739769u64
        && xorshift(5355919241772739769u64) == 10302347398181041312u64
        && xorshift(10302347398181041312u64) == 1141025145510534345u64
        && xorshift(1141025145510534345u64) == 9043978460920573360u64
        && xorshift(9043978460920573360u64) == 14270728560949979499u64
        && xorshift(14270728560949979499u64) == 2325862720577351801u64
        && xorshift(2325862720577351801u64) == 11155507529951715929u64
        && xorshift(11155507529951715929u64) == 10725779894255090525u64
        && xorshift(10725779894255090525u64) == 2293791433090056171u64
        && xorshift(2293791433090056171u64) == 15266953859342037076u64
        && xorshift(15266953859342037076u64) == 14482362802197126580u64
        && xorshift(14482362802197126580u64) == 1730693291211432975u64
        && xorshift(1730693291211432975u64) == 14086100113778956679u64
        && xorshift(14086100113778956679u64) == 2406602729948191988u64
        && xorshift(2406602729948191988u64) == 7474290740848998861u64
        && xorshift(7474290740848998861u64) == 2394930183921008126u64
        && xorshift(2394930183921008126u64) == 7239216479563330437u64
        && xorshift(7239216479563330437u64) == 4959389504204439458u64
        && xorshift(4959389504204439458u64) == 5769553815269251293u64
        && xorshift(5769553815269251293u64) == 5215012466868957356u64
        && xorshift(5215012466868957356u64) == 8134536433992167885u64
        && xorshift(8134536433992167885u64) == 4949477014633153646u64
        && xorshift(4949477014633153646u64) == 17000662060199643366u64
        && xorshift(17000662060199643366u64) == 17138645209254503287u64
        && xorshift(17138645209254503287u64) == 11851178461583294449u64
        && xorshift(11851178461583294449u64) == 7141190613502508750u64
        && xorshift(7141190613502508750u64) == 5822643790384831027u64
        && xorshift(5822643790384831027u64) == 8910672547119136199u64
        && xorshift(8910672547119136199u64) == 4752017475213874428u64
        && xorshift(4752017475213874428u64) == 5098351794831216469u64
        && xorshift(5098351794831216469u64) == 2900899291365211531u64
        && xorshift(2900899291365211531u64) == 5512465734842809776u64
        && xorshift(5512465734842809776u64) == 6639409394658161483u64
        && xorshift(6639409394658161483u64) == 1818056480261143277u64
        && xorshift(1818056480261143277u64) == 14148878348681739864u64
        && xorshift(14148878348681739864u64) == 16974536288765063076u64
        && xorshift(16974536288765063076u64) == 15069588530891417083u64
        && xorshift(15069588530891417083u64) == 10240807901256831472u64
        && xorshift(10240807901256831472u64) == 17895318392626214739u64
        && xorshift(17895318392626214739u64) == 2926942533452807293u64
        && xorshift(2926942533452807293u64) == 8180917387999435845u64
        && xorshift(8180917387999435845u64) == 9131576841105139389u64
        && xorshift(9131576841105139389u64) == 6614532881774930736u64
        && xorshift(6614532881774930736u64) == 5377363863973891302u64
        && xorshift(5377363863973891302u64) == 2705747159962495615u64
        && xorshift(2705747159962495615u64) == 10565621952991885803u64
        && xorshift(10565621952991885803u64) == 3057718016652554200u64
        && xorshift(3057718016652554200u64) == 4922842201538830215u64
        && xorshift(4922842201538830215u64) == 2372676171986440824u64) by (bit_vector);
    if square > 0 {
        lemma_white_bishop_keys(square - 1);
    }
}

/// The keys of White's rooks are outputs 193 to 256 of the generator, and none is
/// the seed.
proof fn lemma_white_rook_keys(square: int)
    requires
        0 <= square < 64,
    ensures
        random_key((193 + square) as nat) == WHITE_ROOK_KEYS[square],
        WHITE_ROOK_KEYS[square] != KEY_SEED,
    decreases square,
{
    lemma_white_bishop_keys(63);
    assert(xorshift(2372676171986440824u64) == 18255874275685047900u64
        && xorshift(18255874275685047900u64) == 11355974834871780704u64
        && xorshift(11355974834871780704u64) == 2098514138412744938u64
        && xorshift(2098514138412744938u64) == 9223499332057108075u64
        && xorshift(9223499332057108075u64) == 319690562464863927u64
        && xorshift(319690562464863927u64) == 9180116162567970266u64
        && xorshift(9180116162567970266u64) == 13184111301277054049u64
        && xorshift(13184111301277054049u64) == 11514218674495448521u64
        && xorshift(11514218674495448521u64) == 12334055477646378818u64
        && xorshift(12334055477646378818u64) == 3728660642943562316u64
        && xorshift(3728660642943562316u64) == 8761837293000008616u64
        && xorshift(8761837293000008616u64) == 16566753997090773999u64
        && xorshift(16566753997090773999u64) == 16199149088796574104u64
        && xorshift(16199149088796574104u64) == 17931541523773507483u64
        && xorshift(17931541523773507483u64) == 4985968557655989972u64
        && xorshift(4985968557655989972u64) == 386160741911994345u64
        && xorshift(386160741911994345u64) == 15551889798779436694u64
        && xorshift(15551889798779436694u64) == 8356361932994450155u64
        && xorshift(8356361932994450155u64) == 9109818835477970446u64
        && xorshift(9109818835477970446u64) == 4745419411824335602u64
        && xorshift(4745419411824335602u64) == 11094810301997954759u64
        && xorshift(11094810301997954759u64) == 5996441186450422378u64
        && xorshift(5996441186450422378u64) == 14146260681673682078u64
        && xorshift(14146260681673682078u64) == 16717796642051633991u64
        && xorshift(16717796642051633991u64) == 6737279086667492321u64
        && xorshift(6737279086667492321u64) == 3579924252052407414u64
        && xorshift(3579924252052407414u64) == 5181742801843183230u64
        && xorshift(5181742801843183230u64) == 9776901263159072834u64
        && xorshift(9776901263159072834u64) == 10628702224300449010u64
        && xorshift(10628702224300449010u64) == 15344987378405591627u64
        && xorshift(15344987378405591627u64) == 7527075451268454175u64
        && xorshift(7527075451268454175u64) == 1042934401122674289u64
        && xorshift(1042934401122674289u64) == 17144781729121435005u64
        && xorshift(17144781729121435005u64) == 14377444126426318279u64
        && xorshift(14377444126426318279u64) == 14028883154989744524u64
        && xorshift(14028883154989744524u64) == 18058641380334281359u64
        && xorshift(18058641380334281359u64) == 2607579239047896074u64
        && xorshift(2607579239047896074u64) == 8395682846835350194u64
        && xorshift(8395682846835350194u64) == 4354034026690910727u64
        && xorshift(4354034026690910727u64) == 1541624142545665011u64
        && xorshift(1541624142545665011u64) == 15765621149691679812u64
        && xorshift(15765621149691679812u64) == 6066720517108400492u64
        && xorshift(6066720517108400492u64) == 13659303368925412974u64
        && xorshift(13659303368925412974u64) == 10791560926121039122u64
        && xorshift(10791560926121039122u64) == 17764357666384367032u64
        && xorshift(17764357666384367032u64) == 12896317010502091811u64
        && xorshift(12896317010502091811u64) == 17424448218380300523u64
        && xorshift(17424448218380300523u64) == 4731895877196896202u64
        && xorshift(4731895877196896202u64) == 319443018604514533u64
        && xorshift(319443018604514533u64) == 10446479344995063996u64
        && xorshift(10446479344995063996u64) == 5908681033616110093u64
        && xorshift(5908681033616110093u64) == 16166213197028531241u64
        && xorshift(16166213197028531241u64) == 14300825845110278737u64
        && xorshift(14300825845110278737u64) == 9917433805778301445u64
        && xorshift(9917433805778301445u64) == 8377303241099716641u64
        && xorshift(8377303241099716641u64) == 8199184959621887025u64
        && xorshift(8199184959621887025u64) == 10323126054203302297u64
        && xorshift(10323126054203302297u64) == 1029609648759626650u64
        && xorshift(1029609648759626650u64) == 14547252180681309869u64
        && xorshift(14547252180681309869u64) == 3835179259493361552u64
        && xorshift(3835179259493361552u64) == 1577910506499464159u64
        && xorshift(1577910506499464159u64) == 12369727565175869352u64
        && xorshift(12369727565175869352u64) == 1276247880826876215u64
        && xorshift(1276247880826876215u64) == 17366671017093321493u64) by (bit_vector);
    if square > 0 {
        lemma_white_rook_keys(square - 1);
    }
}

/// The keys of White's queens are outputs 257 to 320 of the generator, and none is
/// the seed.
proof fn lemma_white_queen_keys(square: int)
    requires
        0 <= square < 64,
    ensures
        random_key((257 + square) as nat) == WHITE_QUEEN_KEYS[square],
        WHITE_QUEEN_KEYS[square] != KEY_SEED,
    decreases square,
{
    lemma_white_rook_keys(63);
    assert(xorshift(17366671017093321493u64) == 6752679932585500915u64
        && xorshift(6752679932585500915u64) == 7516016594024655346u64
        && xorshift(7516016594024655346u64) == 16951039067764054689u64
        && xorshift(16951039067764054689u64) == 9690394303595897428u64
        && xorshift(9690394303595897428u64) == 17807092283063004560u64
        && xorshift(17807092283063004560u64) == 320838022213118539u64
        && xorshift(320838022213118539u64) == 17551945339804499935u64
        && xorshift(17551945339804499935u64) == 559028101598319968u64
        && xorshift(559028101598319968u64) == 14882973224815671370u64
        && xorshift(14882973224815671370u64) == 2870527839681083834u64
        && xorshift(2870527839681083834u64) == 2661869310122674633u64
        && xorshift(2661869310122674633u64) == 8291337644326509338u64
        && xorshift(8291337644326509338u64) == 10594342753127076396u64
        && xorshift(10594342753127076396u64) == 15516645683958851080u64
        && xorshift(15516645683958851080u64) == 15514783162760972868u64
        && xorshift(15514783162760972868u64) == 13892376233430315984u64
        && xorshift(13892376233430315984u64) == 9770932286804911415u64
        && xorshift(9770932286804911415u64) == 12019619751289259325u64
        && xorshift(12019619751289259325u64) == 2907097746469081463u64
        && xorshift(2907097746469081463u64) == 4670197271376375061u64
        && xorshift(4670197271376375061u64) == 14403822760231570959u64
        && xorshift(14403822760231570959u64) == 13541916838471989715u64
        && xorshift(13541916838471989715u64) == 8548915253207559392u64
        && xorshift(8548915253207559392u64) == 11265255116630614329u64
        && xorshift(11265255116630614329u64) == 8499860213331384763u64
        && xorshift(8499860213331384763u64) == 14236667342508980424u64
        && xorshift(14236667342508980424u64) == 13449932683934992185u64
        && xorshift(13449932683934992185u64) == 16157750579395416183u64
        && xorshift(16157750579395416183u64) == 5819895582497529367u64
        && xorshift(5819895582497529367u64) == 10536339463000521067u64
        && xorshift(10536339463000521067u64) == 11359108188445631833u64
        && xorshift(11359108188445631833u64) == 15827246074800571347u64
        && xorshift(15827246074800571347u64) == 3352514749580953876u64
        && xorshift(3352514749580953876u64) == 1918565470724227974u64
        && xorshift(1918565470724227974u64) == 8038489159520391169u64
        && xorshift(8038489159520391169u64) == 10985265918516700513u64
        && xorshift(10985265918516700513u64) == 1699395119188218987u64
        && xorshift(1699395119188218987u64) == 13180039619915878531u64
        && xorshift(13180039619915878531u64) == 14326051109940232802u64
        && xorshift(14326051109940232802u64) == 14736408156535059174u64
        && xorshift(14736408156535059174u64) == 7227597845298178691u64
        && xorshift(7227597845298178691u64) == 12305827632004360854u64
        && xorshift(12305827632004360854u64) == 16906948564670845891u64
        && xorshift(16906948564670845891u64) == 8425728168379744292u64
        && xorshift(8425728168379744292u64) == 15107946090544957220u64
        && xorshift(15107946090544957220u64) == 179852707908489258u64
        && xorshift(179852707908489258u64) == 3295778113194022026u64
        && xorshift(3295778113194022026u64) == 3352296393083677091u64
        && xorshift(3352296393083677091u64) == 12447216190962157488u64
        && xorshift(12447216190962157488u64) == 17680105443079372607u64
        && xorshift(17680105443079372607u64) == 3269626315170673793u64
        && xorshift(3269626315170673793u64) == 9389167346102926376u64
        && xorshift(9389167346102926376u64) == 14072142845598311632u64
        && xorshift(14072142845598311632u64) == 10346503666302251673u64
        && xorshift(10346503666302251673u64) == 7511093035020387644u64
        && xorshift(7511093035020387644u64) == 6069220745165230134u64
        && xorshift(6069220745165230134u64) == 13329623398315826966u64
        && xorshift(13329623398315826966u64) == 6551451184885934504u64
        && xorshift(6551451184885934504u64) == 6571429562054714363u64
        && xorshift(6571429562054714363u64) == 9974610315636881020u64
        && xorshift(9974610315636881020u64) == 1769704472344354320u64
        && xorshift(1769704472344354320u64) == 17408370955552807084u64
        && xorshift(17408370955552807084u64) == 12631684495032816669u64
        && xorshift(12631684495032816669u64) == 6173420739096692853u64) by (bit_vector);
    if square > 0 {
        lemma_white_queen_keys(square - 1);
    }
}

/// The keys of White's king are outputs 321 to 384 of the generator, and none is
/// the seed.
proof fn lemma_white_king_keys(square: int)
    requires
        0 <= square < 64,
    ensures
        random_key((321 + square) as nat) == WHITE_KING_KEYS[square],
        WHITE_KING_KEYS[square] != KEY_SEED,
    decreases square,
{
    lemma_white_queen_keys(63);
    assert(xorshift(6173420739096692853u64) == 1686845967640310693u64
        && xorshift(1686845967640310693u64) == 14922192770166979202u64
        && xorshift(14922192770166979202u64) == 12120542885227262711u64
        && xorshift(12120542885227262711u64) == 16082512326503176402u64
        && xorshift(16082512326503176402u64) == 15125789541959486563u64
        && xorshift(15125789541959486563u64) == 8799993401792435259u64
        && xorshift(8799993401792435259u64) == 2211862896652961747u64
        && xorshift(2211862896652961747u64) == 2135591583966554268u64
        && xorshift(2135591583966554268u64) == 16606371735271835725u64
        && xorshift(16606371735271835725u64) == 12571773456003585309u64
        && xorshift(12571773456003585309u64) == 11118674171542650103u64
        && xorshift(11118674171542650103u64) == 10133032047316425038u64
        && xorshift(10133032047316425038u64) == 11198996563951987068u64
        && xorshift(11198996563951987068u64) == 6252712119871089966u64
        && xorshift(6252712119871089966u64) == 2656350717334504180u64
        && xorshift(2656350717334504180u64) == 15624427309393303665u64
        && xorshift(15624427309393303665u64) == 3683678444213796225u64
        && xorshift(3683678444213796225u64) == 8886476942621506874u64
        && xorshift(8886476942621506874u64) == 3267471956586544448u64
        && xorshift(3267471956586544448u64) == 1063370932577150266u64
        && xorshift(1063370932577150266u64) == 3497403988583371504u64
        && xorshift(3497403988583371504u64) == 17484763987727120725u64
        && xorshift(17484763987727120725u64) == 6591779934798251239u64
        && xorshift(6591779934798251239u64) == 13455701883025176622u64
        && xorshift(13455701883025176622u64) == 470279669351479774u64
        && xorshift(470279669351479774u64) == 11903584329077251757u64
        && xorshift(11903584329077251757u64) == 1823935513513249104u64
        && xorshift(1823935513513249104u64) == 4378807608474159042u64
        && xorshift(4378807608474159042u64) == 11901101771701302733u64
        && xorshift(11901101771701302733u64) == 11529704775551281382u64
        && xorshift(11529704775551281382u64) == 6868935617621567159u64
        && xorshift(6868935617621567159u64) == 13987312212506923578u64
        && xorshift(13987312212506923578u64) == 10338569532209329694u64
        && xorshift(10338569532209329694u64) == 1209388459848054642u64
        && xorshift(1209388459848054642u64) == 5264908258362641820u64
        && xorshift(5264908258362641820u64) == 13835320898192824583u64
        && xorshift(13835320898192824583u64) == 18417714362355178613u64
        && xorshift(18417714362355178613u64) == 9992641468066723213u64
        && xorshift(9992641468066723213u64) == 6186744980548836902u64
        && xorshift(6186744980548836902u64) == 2602215867937653018u64
        && xorshift(2602215867937653018u64) == 619096144847739288u64
        && xorshift(619096144847739288u64) == 7408487377510011563u64
        && xorshift(7408487377510011563u64) == 9077664327792082510u64
        && xorshift(9077664327792082510u64) == 12338513274890550706u64
        && xorshift(12338513274890550706u64) == 10396971700798178505u64
        && xorshift(10396971700798178505u64) == 7531332559802657792u64
        && xorshift(7531332559802657792u64) == 16215166091589407192u64
        && xorshift(16215166091589407192u64) == 18093405871615929723u64
        && xorshift(18093405871615929723u64) == 3621258638919800673u64
        && xorshift(3621258638919800673u64) == 11801997855004011791u64
        && xorshift(11801997855004011791u64) == 16486564763384009109u64
        && xorshift(16486564763384009109u64) == 13445687431033317238u64
        && xorshift(13445687431033317238u64) == 10427315447276020536u64
        && xorshift(10427315447276020536u64) == 13582798779910767742u64
        && xorshift(13582798779910767742u64) == 5614914617185303158u64
        && xorshift(5614914617185303158u64) == 12933702203636241154u64
        && xorshift(12933702203636241154u64) == 6962424040317028900u64
        && xorshift(6962424040317028900u64) == 4899183836197288496u64
        && xorshift(4899183836197288496u64) == 8355377604307765700u64
        && xorshift(8355377604307765700u64) == 2134793786961310039u64
        && xorshift(2134793786961310039u64) == 331073780870779125u64
        && xorshift(331073780870779125u64) == 13416993481005691540u64
        && xorshift(13416993481005691540u64) == 7287329754017263985u64
        && xorshift(7287329754017263985u64) == 16398265271825704915u64) by (bit_vector);
    if square > 0 {
        lemma_white_king_keys(square - 1);
    }
}

/// The keys of Black's pawns are outputs 385 to 448 of the generator, and none is
/// the seed.
proof fn lemma_black_pawn_keys(square: int)
    requires
        0 <= square < 64,
    ensures
        random_key((385 + square) as nat) == BLACK_PAWN_KEYS[square],
        BLACK_PAWN_KEYS[square] != KEY_SEED,
    decreases square,
{
    lemma_white_king_keys(63);
    assert(xorshift(16398265271825704915u64) == 8953852771652052060u64
        && xorshift(8953852771652052060u64) == 2160152608600218644u64
        && xorshift(2160152608600218644u64) == 5455280367610242732u64
        && xorshift(5455280367610242732u64) == 13703657916300995041u64
        && xorshift(13703657916300995041u64) == 10449602155951448050u64
        && xorshift(10449602155951448050u64) == 17422270166499896269u64
        && xorshift(17422270166499896269u64) == 8277560683310465498u64
        && xorshift(8277560683310465498u64) == 15373245074255256793u64
        && xorshift(15373245074255256793u64) == 14738917189754949280u64
        && xorshift(14738917189754949280u64) == 4962280784402176701u64
        && xorshift(4962280784402176701u64) == 16886709680472376904u64
        && xorshift(16886709680472376904u64) == 9831784027709193668u64
        && xorshift(9831784027709193668u64) == 2296789522125497023u64
        && xorshift(2296789522125497023u64) == 8275509850155659066u64
        && xorshift(8275509850155659066u64) == 1743550429252365796u64
        && xorshift(1743550429252365796u64) == 16937478415089923775u64
        && xorshift(16937478415089923775u64) == 3962412507360736914u64
        && xorshift(3962412507360736914u64) == 18233567303388711039u64
        && xorshift(18233567303388711039u64) == 8133556532448060719u64
        && xorshift(8133556532448060719u64) == 8333195259010052389u64
        && xorshift(8333195259010052389u64) == 2392131350406045319u64
        && xorshift(2392131350406045319u64) == 4892738518833320314u64
        && xorshift(4892738518833320314u64) == 12560358257061172056u64
        && xorshift(12560358257061172056u64) == 748233032845150334u64
        && xorshift(748233032845150334u64) == 2127468954771583598u64
        && xorshift(2127468954771583598u64) == 413461752678580234u64
        && xorshift(413461752678580234u64) == 11217295947816664714u64
        && xorshift(11217295947816664714u64) == 11091350346818554103u64
        && xorshift(11091350346818554103u64) == 6008991119177504806u64
        && xorshift(6008991119177504806u64) == 9479609318262803222u64
        && xorshift(9479609318262803222u64) == 3448359517037305216u64
        && xorshift(3448359517037305216u64) == 1178955752504839355u64
        && xorshift(1178955752504839355u64) == 13725722943652621026u64
        && xorshift(13725722943652621026u64) == 14088125508163517879u64
        && xorshift(14088125508163517879u64) == 3983604718207719692u64
        && xorshift(3983604718207719692u64) == 2818341391781344446u64
        && xorshift(2818341391781344446u64) == 1298443914059778903u64
        && xorshift(1298443914059778903u64) == 11389912117623891073u64
        && xorshift(11389912117623891073u64) == 17714304292162724744u64
        && xorshift(17714304292162724744u64) == 15537906131430904655u64
        && xorshift(15537906131430904655u64) == 15051687469339130793u64
        && xorshift(15051687469339130793u64) == 15748837396660068766u64
        && xorshift(15748837396660068766u64) == 16132501964420585821u64
        && xorshift(16132501964420585821u64) == 14887556746757818159u64
        && xorshift(14887556746757818159u64) == 13545284523121548385u64
        && xorshift(13545284523121548385u64) == 3945947752607000345u64
        && xorshift(3945947752607000345u64) == 5743433827003402519u64
        && xorshift(5743433827003402519u64) == 8623666607012031685u64
        && xorshift(8623666607012031685u64) == 9407941280695750364u64
        && xorshift(9407941280695750364u64) == 10440272280655203521u64
        && xorshift(10440272280655203521u64) == 377242035319014296u64
        && xorshift(377242035319014296u64) == 12497875981350991775u64
        && xorshift(12497875981350991775u64) == 4706362520912752560u64
        && xorshift(4706362520912752560u64) == 11462137069187558767u64
        && xorshift(11462137069187558767u64) == 2668469488748450677u64
        && xorshift(2668469488748450677u64) == 15487129455853833619u64
        && xorshift(15487129455853833619u64) == 10500708495304972616u64
        && xorshift(10500708495304972616u64) == 1296573439033615354u64
        && xorshift(1296573439033615354u64) == 15542605447796490557u64
        && xorshift(15542605447796490557u64) == 12880358206970266239u64
        && xorshift(12880358206970266239u64) == 17731245762565504443u64
        && xorshift(17731245762565504443u64) == 599503935019436160u64
        && xorshift(599503935019436160u64) == 15573587169645230097u64
        && xorshift(15573587169645230097u64) == 473592928684232097u64) by (bit_vector);
    if square > 0 {
        lemma_black_pawn_keys(square - 1);
    }
}

/// The keys of Black's knights are outputs 449 to 512 of the generator, and none is
/// the seed.
proof fn lemma_black_knight_keys(square: int)
    requires
        0 <= square < 64,
    ensures
        random_key((449 + square) as nat) == BLACK_KNIGHT_KEYS[square],
        BLACK_KNIGHT_KEYS[square] != KEY_SEED,
    decreases square,
{
    lemma_black_pawn_keys(63);
    assert(xorshift(473592928684232097u64) == 12860753144650120570u64
        && xorshift(12860753144650120570u64) == 6982890152738559104u64
        && xorshift(6982890152738559104u64) == 6195299209481955497u64
        && xorshift(6195299209481955497u64) == 9376329169625284280u64
        && xorshift(9376329169625284280u64) == 17566840890161240901u64
        && xorshift(17566840890161240901u64) == 9456367555674494515u64
        && xorshift(9456367555674494515u64) == 11679487764821653855u64
        && xorshift(11679487764821653855u64) == 16290282817238196461u64
        && xorshift(16290282817238196461u64) == 655371014776305772u64
        && xorshift(655371014776305772u64) == 2662133231251884828u64
        && xorshift(2662133231251884828u64) == 2658513435096931338u64
        && xorshift(2658513435096931338u64) == 10759887490954232370u64
        && xorshift(10759887490954232370u64) == 13867572541008588982u64
        && xorshift(13867572541008588982u64) == 12701815762595369815u64
        && xorshift(12701815762595369815u64) == 4305683371470589489u64
        && xorshift(4305683371470589489u64) == 3438259668496924013u64
        && xorshift(3438259668496924013u64) == 14467202124892068183u64
        && xorshift(14467202124892068183u64) == 12967799467424514853u64
        && xorshift(12967799467424514853u64) == 3499450768490514275u64
        && xorshift(3499450768490514275u64) == 3748391190849277741u64
        && xorshift(3748391190849277741u64) == 14790303525054556403u64
        && xorshift(14790303525054556403u64) == 12526106321210302306u64
        && xorshift(12526106321210302306u64) == 18282060694459072604u64
        && xorshift(18282060694459072604u64) == 4176024210195377628u64
        && xorshift(4176024210195377628u64) == 14018485625519528455u64
        && xorshift(14018485625519528455u64) == 3517474231437672051u64
        && xorshift(3517474231437672051u64) == 822918475147091919u64
        && xorshift(822918475147091919u64) == 9823481232757748528u64
        && xorshift(9823481232757748528u64) == 15543809716566836438u64
        && xorshift(15543809716566836438u64) == 12772921318404704223u64
        && xorshift(12772921318404704223u64) == 2539699640062958992u64
        && xorshift(2539699640062958992u64) == 8298041202909183531u64
        && xorshift(8298041202909183531u64) == 3903014144874249495u64
        && xorshift(3903014144874249495u64) == 17767498789630722861u64
        && xorshift(17767498789630722861u64) == 10967627350172374763u64
        && xorshift(10967627350172374763u64) == 15350472798470473734u64
        && xorshift(15350472798470473734u64) == 14927186023003818902u64
        && xorshift(14927186023003818902u64) == 4649880199999589633u64
        && xorshift(4649880199999589633u64) == 9257863368584093531u64
        && xorshift(9257863368584093531u64) == 4832025719432803621u64
        && xorshift(4832025719432803621u64) == 4900128035279254415u64
        && xorshift(4900128035279254415u64) == 18250287737530495272u64
        && xorshift(18250287737530495272u64) == 1144785754317726538u64
        && xorshift(1144785754317726538u64) == 11160882141753811852u64
        && xorshift(11160882141753811852u64) == 591208337457920459u64
        && xorshift(591208337457920459u64) == 11439793134431006840u64
        && xorshift(11439793134431006840u64) == 7982598909389570712u64
        && xorshift(7982598909389570712u64) == 8754614606305593501u64
        && xorshift(8754614606305593501u64) == 12944782281223412428u64
        && xorshift(12944782281223412428u64) == 6738840811118823161u64
        && xorshift(6738840811118823161u64) == 6246276335277396404u64
        && xorshift(6246276335277396404u64) == 194315432436824599u64
        && xorshift(194315432436824599u64) == 10467620210538320931u64
        && xorshift(10467620210538320931u64) == 11715416907716284619u64
        && xorshift(11715416907716284619u64) == 5874493510856053674u64
        && xorshift(5874493510856053674u64) == 4689250497854040589u64
        && xorshift(4689250497854040589u64) == 9999023427588332185u64
        && xorshift(9999023427588332185u64) == 17054809200437752044u64
        && xorshift(17054809200437752044u64) == 10809414691970614285u64
        && xorshift(10809414691970614285u64) == 16459638993945313093u64
        && xorshift(16459638993945313093u64) == 8530588029257826427u64
        && xorshift(8530588029257826427u64) == 18081978352941893435u64
        && xorshift(18081978352941893435u64) == 5425399744433088245u64
        && xorshift(5425399744433088245u64) == 8739679876897579128u64) by (bit_vector);
    if square > 0 {
        lemma_black_knight_keys(square - 1);
    }
}

/// The keys of Black's bishops are outputs 513 to 576 of the generator, and none is
/// the seed.
proof fn lemma_black_bishop_keys(square: int)
    requires
        0 <= square < 64,
    ensures
        random_key((513 + square) as nat) == BLACK_BISHOP_KEYS[square],
        BLACK_BISHOP_KEYS[square] != KEY_SEED,
    decreases square,
{
    lemma_black_knight_keys(63);
    assert(xorshift(8739679876897579128u64) == 14250742959397471800u64
        && xorshift(14250742959397471800u64) == 13276427999851780660u64
        && xorshift(13276427999851780660u64) == 4693635614257805568u64
        && xorshift(4693635614257805568u64) == 17703898222757860338u64
        && xorshift(17703898222757860338u64) == 11632178578132574933u64
        && xorshift(11632178578132574933u64) == 1061729517339490256u64
        && xorshift(1061729517339490256u64) == 6986024288101458367u64
        && xorshift(6986024288101458367u64) == 11117578823457537468u64
        && xorshift(11117578823457537468u64) == 8658438622285708359u64
        && xorshift(8658438622285708359u64) == 8548554809671218431u64
        && xorshift(8548554809671218431u64) == 9372741144761137878u64
        && xorshift(9372741144761137878u64) == 11386288220197934755u64
        && xorshift(11386288220197934755u64) == 15493550827643545550u64
        && xorshift(15493550827643545550u64) == 15361577886885304833u64
        && xorshift(15361577886885304833u64) == 8577245997847375093u64
        && xorshift(8577245997847375093u64) == 16024971585578425196u64
        && xorshift(16024971585578425196u64) == 15883521328527065818u64
        && xorshift(15883521328527065818u64) == 5192986413709512927u64
        && xorshift(5192986413709512927u64) == 15402458793344707774u64
        && xorshift(15402458793344707774u64) == 3725462269658402151u64
        && xorshift(3725462269658402151u64) == 2126442994537565373u64
        && xorshift(2126442994537565373u64) == 11313041343003102436u64
        && xorshift(11313041343003102436u64) == 10554883522072523261u64
        && xorshift(10554883522072523261u64) == 11139507091996929502u64
        && xorshift(11139507091996929502u64) == 531039586974928261u64
        && xorshift(531039586974928261u64) == 473233421813863390u64
        && xorshift(473233421813863390u64) == 14188177683402586617u64
        && xorshift(14188177683402586617u64) == 4273459042042121290u64
        && xorshift(4273459042042121290u64) == 18080584215483804370u64
        && xorshift(18080584215483804370u64) == 10641893206560766599u64
        && xorshift(10641893206560766599u64) == 7785816883578363826u64
        && xorshift(7785816883578363826u64) == 14241322886759000461u64
        && xorshift(14241322886759000461u64) == 15715792482426370206u64
        && xorshift(15715792482426370206u64) == 15167036605743059311u64
        && xorshift(15167036605743059311u64) == 10978124564964554765u64
        && xorshift(10978124564964554765u64) == 14234221341862755389u64
        && xorshift(14234221341862755389u64) == 15625241754686576005u64
        && xorshift(15625241754686576005u64) == 5192304592881416046u64
        && xorshift(5192304592881416046u64) == 17987660003996322304u64
        && xorshift(17987660003996322304u64) == 13916783345577242004u64
        && xorshift(13916783345577242004u64) == 1484044942156341455u64
        && xorshift(1484044942156341455u64) == 18101166065746939982u64
        && xorshift(18101166065746939982u64) == 684464838062122222u64
        && xorshift(684464838062122222u64) == 14673681126740016935u64
        && xorshift(14673681126740016935u64) == 1374089314814489753u64
        && xorshift(1374089314814489753u64) == 9267389504345679920u64
        && xorshift(9267389504345679920u64) == 13812618484651806304u64
        && xorshift(13812618484651806304u64) == 5134886557901816572u64
        && xorshift(5134886557901816572u64) == 2100144662514559225u64
        && xorshift(2100144662514559225u64) == 1793619471114293096u64
        && xorshift(1793619471114293096u64) == 3003639526348615414u64
        && xorshift(3003639526348615414u64) == 4757586516976679595u64
        && xorshift(4757586516976679595u64) == 6742166645731219998u64
        && xorshift(6742166645731219998u64) == 8998029502480386602u64
        && xorshift(8998029502480386602u64) == 773173217345169598u64
        && xorshift(773173217345169598u64) == 979280155930587119u64
        && xorshift(979280155930587119u64) == 14460141275178425840u64
        && xorshift(14460141275178425840u64) == 9048262217813709643u64
        && xorshift(9048262217813709643u64) == 9370218809478536749u64
        && xorshift(9370218809478536749u64) == 17321294099795130577u64
        && xorshift(17321294099795130577u64) == 7406611496768576480u64
        && xorshift(7406611496768576480u64) == 2398276519585615319u64
        && xorshift(2398276519585615319u64) == 4787075655518914316u64
        && xorshift(4787075655518914316u64) == 6114924743774962690u64) by (bit_vector);
    if square > 0 {
        lemma_black_bishop_keys(square - 1);
    }
}

/// The keys of Black's rooks are outputs 577 to 640 of the generator, and none is
/// the seed.
proof fn lemma_black_rook_keys(square: int)
    requires
        0 <= square < 64,
    ensures
        random_key((577 + square) as nat) == BLACK_ROOK_KEYS[square],
        BLACK_ROOK_KEYS[square] != KEY_SEED,
    decreases square,
{
    lemma_black_bishop_keys(63);
    assert(xorshift(6114924743774962690u64) == 13756000937331698826u64
        && xorshift(13756000937331698826u64) == 7842792555173117779u64
        && xorshift(7842792555173117779u64) == 4184261979557338221u64
        && xorshift(4184261979557338221u64) == 16006787115669374741u64
        && xorshift(16006787115669374741u64) == 9743324394189564379u64
        && xorshift(9743324394189564379u64) == 12947581945083993416u64
        && xorshift(12947581945083993416u64) == 16284321545070162802u64
        && xorshift(16284321545070162802u64) == 1207643354051077268u64
        && xorshift(1207643354051077268u64) == 13861772373331142493u64
        && xorshift(13861772373331142493u64) == 241380423110157267u64
        && xorshift(241380423110157267u64) == 9422138347541895892u64
        && xorshift(9422138347541895892u64) == 16740235146134260705u64
        && xorshift(16740235146134260705u64) == 7522147782432324790u64
        && xorshift(7522147782432324790u64) == 15611394551418629327u64
        && xorshift(15611394551418629327u64) == 511501368006275670u64
        && xorshift(511501368006275670u64) == 16229376149976637490u64
        && xorshift(16229376149976637490u64) == 17113909818976155506u64
        && xorshift(17113909818976155506u64) == 15217868877635740316u64
        && xorshift(15217868877635740316u64) == 10058880575091614553u64
        && xorshift(10058880575091614553u64) == 11595201363250546271u64
        && xorshift(11595201363250546271u64) == 12652269360715901075u64
        && xorshift(12652269360715901075u64) == 14330358039609860866u64
        && xorshift(14330358039609860866u64) == 14894843328716952644u64
        && xorshift(14894843328716952644u64) == 16026835009850724332u64
        && xorshift(16026835009850724332u64) == 12117997789101543539u64
        && xorshift(12117997789101543539u64) == 15368934376256640787u64
        && xorshift(15368934376256640787u64) == 17549391224798876157u64
        && xorshift(17549391224798876157u64) == 14050477603713561502u64
        && xorshift(14050477603713561502u64) == 5164633154853228409u64
        && xorshift(5164633154853228409u64) == 13874007748914825127u64
        && xorshift(13874007748914825127u64) == 12632518559260141032u64
        && xorshift(12632518559260141032u64) == 9884485165399861795u64
        && xorshift(9884485165399861795u64) == 8052105408030478135u64
        && xorshift(8052105408030478135u64) == 5262752657422480361u64
        && xorshift(5262752657422480361u64) == 11880478717589977166u64
        && xorshift(11880478717589977166u64) == 5980502540821018686u64
        && xorshift(5980502540821018686u64) == 1893755316135730638u64
        && xorshift(1893755316135730638u64) == 8528694724121862261u64
        && xorshift(8528694724121862261u64) == 6839624291662597493u64
        && xorshift(6839624291662597493u64) == 7877004332580089135u64
        && xorshift(7877004332580089135u64) == 12505866800048753333u64
        && xorshift(12505866800048753333u64) == 5330745566138156128u64
        && xorshift(5330745566138156128u64) == 17390000365667685096u64
        && xorshift(17390000365667685096u64) == 8907231724493454029u64
        && xorshift(8907231724493454029u64) == 13855658186682376952u64
        && xorshift(13855658186682376952u64) == 3735550109293134781u64
        && xorshift(3735550109293134781u64) == 13376139861633245562u64
        && xorshift(13376139861633245562u64) == 8222064567011610808u64
        && xorshift(8222064567011610808u64) == 4896942604955329945u64
        && xorshift(4896942604955329945u64) == 16207721243017957010u64
        && xorshift(16207721243017957010u64) == 4032976182992825487u64
        && xorshift(4032976182992825487u64) == 14905395811586073750u64
        && xorshift(14905395811586073750u64) == 12611434896566475999u64
        && xorshift(12611434896566475999u64) == 1090142983911904678u64
        && xorshift(1090142983911904678u64) == 17973274238976742413u64
        && xorshift(17973274238976742413u64) == 9893640797431804389u64
        && xorshift(9893640797431804389u64) == 15174461418295824582u64
        && xorshift(15174461418295824582u64) == 13176264418489051239u64
        && xorshift(13176264418489051239u64) == 9112504377035522295u64
        && xorshift(9112504377035522295u64) == 13274064755122313014u64
        && xorshift(13274064755122313014u64) == 12081618205364660376u64
        && xorshift(12081618205364660376u64) == 4966337181492265161u64
        && xorshift(4966337181492265161u64) == 8054098317871874056u64
        && xorshift(8054098317871874056u64) == 897332109038822408u64) by (bit_vector);
    if square > 0 {
        lemma_black_rook_keys(square - 1);
    }
}

/// The keys of Black's queens are outputs 641 to 704 of the generator, and none is
/// the seed.
proof fn lemma_black_queen_keys(square: int)
    requires
        0 <= square < 64,
    ensures
        random_key((641 + square) as nat) == BLACK_QUEEN_KEYS[square],
        BLACK_QUEEN_KEYS[square] != KEY_SEED,
    decreases square,
{
    lemma_black_rook_keys(63);
    assert(xorshift(897332109038822408u64) == 1692376842984372544u64
        && xorshift(1692376842984372544u64) == 17564290427345712434u64
        && xorshift(17564290427345712434u64) == 14748760128298435032u64
        && xorshift(14748760128298435032u64) == 6953768895907393371u64
        && xorshift(6953768895907393371u64) == 559455511195920709u64
        && xorshift(559455511195920709u64) == 584954195750401879u64
        && xorshift(584954195750401879u64) == 14613230642140915193u64
        && xorshift(14613230642140915193u64) == 12178489491237939442u64
        && xorshift(12178489491237939442u64) == 14059220614004536611u64
        && xorshift(14059220614004536611u64) == 11115753077011181577u64
        && xorshift(11115753077011181577u64) == 8968292902470400937u64
        && xorshift(8968292902470400937u64) == 15193385726158487198u64
        && xorshift(15193385726158487198u64) == 7821757510848515171u64
        && xorshift(7821757510848515171u64) == 5603699291257653691u64
        && xorshift(5603699291257653691u64) == 2801807104914443752u64
        && xorshift(2801807104914443752u64) == 6084534690996033907u64
        && xorshift(6084534690996033907u64) == 12178575717094038913u64
        && xorshift(12178575717094038913u64) == 12998067309905637626u64
        && xorshift(12998067309905637626u64) == 10361272003839957915u64
        && xorshift(10361272003839957915u64) == 2550817465129841772u64
        && xorshift(2550817465129841772u64) == 12084287047940601092u64
        && xorshift(12084287047940601092u64) == 12261802009447563502u64
        && xorshift(12261802009447563502u64) == 8439770121587027311u64
        && xorshift(8439770121587027311u64) == 12478020999794432629u64
        && xorshift(12478020999794432629u64) == 3640923034420223489u64
        && xorshift(3640923034420223489u64) == 16600277313208742269u64
        && xorshift(16600277313208742269u64) == 13648034136761310943u64
        && xorshift(13648034136761310943u64) == 13418719318784370978u64
        && xorshift(13418719318784370978u64) == 17272382478825275760u64
        && xorshift(17272382478825275760u64) == 11659393518232896242u64
        && xorshift(11659393518232896242u64) == 11762575376876763511u64
        && xorshift(11762575376876763511u64) == 1629309006946810181u64
        && xorshift(1629309006946810181u64) == 13845065071955843447u64
        && xorshift(13845065071955843447u64) == 9718809421703681413u64
        && xorshift(9718809421703681413u64) == 15208759460724959470u64
        && xorshift(15208759460724959470u64) == 12525570223009639871u64
        && xorshift(12525570223009639871u64) == 13110798719354717220u64
        && xorshift(13110798719354717220u64) == 2606063502865783980u64
        && xorshift(2606063502865783980u64) == 2640498316070661653u64
        && xorshift(2640498316070661653u64) == 17806299889813772809u64
        && xorshift(17806299889813772809u64) == 16607695510570017533u64
        && xorshift(16607695510570017533u64) == 15570182614016720376u64
        && xorshift(15570182614016720376u64) == 8515092110817581059u64
        && xorshift(8515092110817581059u64) == 6670681775560015475u64
        && xorshift(6670681775560015475u64) == 9003723878641506511u64
        && xorshift(9003723878641506511u64) == 6969497900412209470u64
        && xorshift(6969497900412209470u64) == 16652201560990469036u64
        && xorshift(16652201560990469036u64) == 17430070542871672123u64
        && xorshift(17430070542871672123u64) == 5039949295494504593u64
        && xorshift(5039949295494504593u64) == 6530985917567727760u64
        && xorshift(6530985917567727760u64) == 14289599270307674977u64
        && xorshift(14289599270307674977u64) == 1180395252677148247u64
        && xorshift(1180395252677148247u64) == 10590735958924544619u64
        && xorshift(10590735958924544619u64) == 7033134549583134271u64
        && xorshift(7033134549583134271u64) == 8904801356170742275u64
        && xorshift(8904801356170742275u64) == 14092351494053320791u64
        && xorshift(14092351494053320791u64) == 6440287786603204903u64
        && xorshift(6440287786603204903u64) == 5573510714899329605u64
        && xorshift(5573510714899329605u64) == 15434392695525381089u64
        && xorshift(15434392695525381089u64) == 9688555992971809414u64
        && xorshift(9688555992971809414u64) == 4904190398677930275u64
        && xorshift(4904190398677930275u64) == 11375807281043493185u64
        && xorshift(11375807281043493185u64) == 3211975660205239715u64
        && xorshift(3211975660205239715u64) == 667761530082661048u64) by (bit_vector);
    if square > 0 {
        lemma_black_queen_keys(square - 1);
    }
}

/// The keys of Black's king are outputs 705 to 768 of the generator, and none is
/// the seed.
proof fn lemma_black_king_keys(square: int)
    requires
        0 <= square < 64,
    ensures
        random_key((705 + square) as nat) == BLACK_KING_KEYS[square],
        BLACK_KING_KEYS[square] != KEY_SEED,
    decreases square,
{
    lemma_black_queen_keys(63);
    assert(xorshift(667761530082661048u64) == 6197635386907313053u64
        && xorshift(6197635386907313053u64) == 11253486195983713370u64
        && xorshift(11253486195983713370u64) == 16931813319198239954u64
        && xorshift(16931813319198239954u64) == 16187429484533812107u64
        && xorshift(16187429484533812107u64) == 10804270493977390172u64
        && xorshift(10804270493977390172u64) == 11089333657541588996u64
        && xorshift(11089333657541588996u64) == 10352015542819299444u64
        && xorshift(10352015542819299444u64) == 13358522340252163892u64
        && xorshift(13358522340252163892u64) == 6665783154943549706u64
        && xorshift(6665783154943549706u64) == 17671716433295311176u64
        && xorshift(17671716433295311176u64) == 1546566584925508426u64
        && xorshift(1546566584925508426u64) == 5676311357256577900u64
        && xorshift(5676311357256577900u64) == 3792554385829658122u64
        && xorshift(3792554385829658122u64) == 10412440168972046198u64
        && xorshift(10412440168972046198u64) == 9026510156927762024u64
        && xorshift(9026510156927762024u64) == 3273794277679472788u64
        && xorshift(3273794277679472788u64) == 9870896444052050133u64
        && xorshift(9870896444052050133u64) == 2649192641546273460u64
        && xorshift(2649192641546273460u64) == 6411135021834046513u64
        && xorshift(6411135021834046513u64) == 13676949678710970473u64
        && xorshift(13676949678710970473u64) == 5137360424591165849u64
        && xorshift(5137360424591165849u64) == 11643714424574877642u64
        && xorshift(11643714424574877642u64) == 303812271248370805u64
        && xorshift(303812271248370805u64) == 18258060105923822317u64
        && xorshift(18258060105923822317u64) == 18225400064643546536u64
        && xorshift(18225400064643546536u64) == 2530886080493075667u64
        && xorshift(2530886080493075667u64) == 16072645882423665258u64
        && xorshift(16072645882423665258u64) == 18428137456670161710u64
        && xorshift(18428137456670161710u64) == 10829348341863676632u64
        && xorshift(10829348341863676632u64) == 17077321869974254381u64
        && xorshift(17077321869974254381u64) == 3468634329168608779u64
        && xorshift(3468634329168608779u64) == 7425393192271003447u64
        && xorshift(7425393192271003447u64) == 13735502258410112905u64
        && xorshift(13735502258410112905u64) == 4561123323836677446u64
        && xorshift(4561123323836677446u64) == 5773659610443103676u64
        && xorshift(5773659610443103676u64) == 4080302795807335623u64
        && xorshift(4080302795807335623u64) == 9534996689948817230u64
        && xorshift(9534996689948817230u64) == 14734987799811161504u64
        && xorshift(14734987799811161504u64) == 4351826246560841563u64
        && xorshift(4351826246560841563u64) == 6058975744136625253u64
        && xorshift(6058975744136625253u64) == 10691247637084435549u64
        && xorshift(10691247637084435549u64) == 7704516680132988661u64
        && xorshift(7704516680132988661u64) == 13734107493501624232u64
        && xorshift(13734107493501624232u64) == 6018357242958403095u64
        && xorshift(6018357242958403095u64) == 5799047095637110139u64
        && xorshift(5799047095637110139u64) == 18186180785631246433u64
        && xorshift(18186180785631246433u64) == 6392521240708164433u64
        && xorshift(6392521240708164433u64) == 1730221934145521223u64
        && xorshift(1730221934145521223u64) == 14543434723259358475u64
        && xorshift(14543434723259358475u64) == 15404786883398162161u64
        && xorshift(15404786883398162161u64) == 3039091206633806876u64
        && xorshift(3039091206633806876u64) == 16793521129448901796u64
        && xorshift(16793521129448901796u64) == 7590188656012134077u64
        && xorshift(7590188656012134077u64) == 12555533532898530032u64
        && xorshift(12555533532898530032u64) == 1886005457166759637u64
        && xorshift(1886005457166759637u64) == 2685979872599596408u64
        && xorshift(2685979872599596408u64) == 8690911490847393986u64
        && xorshift(8690911490847393986u64) == 14794782263617330131u64
        && xorshift(14794782263617330131u64) == 13733152644288863524u64
        && xorshift(13733152644288863524u64) == 1178005519508443038u64
        && xorshift(1178005519508443038u64) == 6531734204367611905u64
        && xorshift(6531734204367611905u64) == 14730383249807555345u64
        && xorshift(14730383249807555345u64) == 15568181565501609511u64
        && xorshift(15568181565501609511u64) == 1749856079111551947u64) by (bit_vector);
    if square > 0 {
        lemma_black_king_keys(square - 1);
    }
}

/// The written keys are the generator's outputs: the key in place `index`
/// is output `index + 1`, and it is not the seed.
pub proof fn lemma_written_keys(index: int)
    requires
        0 <= index < 768,
    ensures
        random_key((index + 1) as nat) == written_key(index),
        written_key(index) != KEY_SEED,
{
    if index < 64 {
        lemma_white_pawn_keys(index);
    } else if index < 128 {
        lemma_white_knight_keys(index - 64);
    } else if index < 192 {
        lemma_white_bishop_keys(index - 128);
    } else if index < 256 {
        lemma_white_rook_keys(index - 192);
    } else if index < 320 {
        lemma_white_queen_keys(index - 256);
    } else if index < 384 {
        lemma_white_king_keys(index - 320);
    } else if index < 448 {
        lemma_black_pawn_keys(index - 384);
    } else if index < 512 {
        lemma_black_knight_keys(index - 448);
    } else if index < 576 {
        lemma_black_bishop_keys(index - 512);
    } else if index < 640 {
        lemma_black_rook_keys(index - 576);
    } else if index < 704 {
        lemma_black_queen_keys(index - 640);
    } else {
        lemma_black_king_keys(index - 704);
    }
}

/// The generator does not come back to its seed within 768 steps.
pub proof fn lemma_seed_does_not_return(k: nat)
    requires
        1 <= k <= 768,
    ensures
        random_key(k) != KEY_SEED,
{
    lemma_written_keys(k - 1);
}

/// A step of the generator is one-to-one.
pub proof fn lemma_xorshift_one_to_one(a: u64, b: u64)
    requires
        xorshift(a) == xorshift(b),
    ensures
        a == b,
{
    let a1 = a ^ (a << 13);
    let b1 = b ^ (b << 13);
    let a2 = a1 ^ (a1 >> 7);
    let b2 = b1 ^ (b1 >> 7);
    assert(a2 ^ (a2 << 17) == b2 ^ (b2 << 17) ==> a2 == b2) by (bit_vector);
    assert(a1 ^ (a1 >> 7) == b1 ^ (b1 >> 7) ==> a1 == b1) by (bit_vector);
    assert(a ^ (a << 13) == b ^ (b << 13) ==> a == b) by (bit_vector);
}

/// No output of the generator is zero.
pub proof fn lemma_key_not_zero(k: nat)
    ensures
        random_key(k) != 0,
    decreases k,
{
    if k > 0 {
        lemma_key_not_zero((k - 1) as nat);
        assert(xorshift(0u64) == 0u64) by (bit_vector);
        if random_key(k) == 0 {
            lemma_xorshift_one_to_one(random_key((k - 1) as nat), 0);
        }
    }
}

/// Two outputs of the generator that are at most 768 steps apart differ.
pub proof fn lemma_keys_differ(i: nat, j: nat)
    requires
        i < j <= i + 768,
    ensures
        random_key(i) != random_key(j),
    decreases i,
{
    if i == 0 {
        lemma_seed_does_not_return(j);
    } else {
        lemma_keys_differ((i - 1) as nat, (j - 1) as nat);
        if random_key(i) == random_key(j) {
            lemma_xorshift_one_to_one(random_key((i - 1) as nat), random_key((j - 1) as nat));
        }
    }
}

} // verus!
