//! The bundled word list: an AFINN-style mapping from lowercase English
//! words to integer sentiment weights between -5 and 5, carried as a JSON
//! object so that it loads with no file or network access.

use vstd::prelude::*;

verus! {

/// The bundled lexicon as a JSON object from lowercase words to weights.
pub const AFINN_JSON: &'static str = "{
\"abandon\": -2,
\"abuse\": -3,
\"accident\": -2,
\"ache\": -2,
\"admire\": 3,
\"adorable\": 3,
\"adore\": 3,
\"afraid\": -2,
\"aggressive\": -2,
\"agree\": 1,
\"alarm\": -2,
\"alive\": 1,
\"amazing\": 4,
\"anger\": -3,
\"angry\": -3,
\"annoy\": -2,
\"anxious\": -2,
\"apology\": -1,
\"applause\": 2,
\"appreciate\": 2,
\"arrest\": -2,
\"arrogant\": -2,
\"ashamed\": -2,
\"attack\": -1,
\"award\": 3,
\"awesome\": 4,
\"awful\": -3,
\"awkward\": -2,
\"bad\": -3,
\"bastard\": -5,
\"beautiful\": 3,
\"best\": 3,
\"betray\": -3,
\"bitter\": -2,
\"blame\": -2,
\"bless\": 2,
\"bore\": -2,
\"boring\": -3,
\"brave\": 2,
\"bright\": 1,
\"brilliant\": 4,
\"broken\": -1,
\"calm\": 2,
\"care\": 2,
\"celebrate\": 3,
\"chaos\": -2,
\"charming\": 3,
\"cheat\": -3,
\"cheer\": 2,
\"clean\": 2,
\"clever\": 2,
\"comfort\": 2,
\"complain\": -2,
\"confident\": 2,
\"confused\": -2,
\"cool\": 1,
\"crap\": -3,
\"crash\": -2,
\"crazy\": -2,
\"creative\": 2,
\"crime\": -3,
\"cruel\": -3,
\"cry\": -1,
\"curious\": 1,
\"cute\": 2,
\"damage\": -3,
\"damn\": -4,
\"danger\": -2,
\"dead\": -3,
\"death\": -2,
\"defeat\": -2,
\"delight\": 3,
\"depressed\": -2,
\"despair\": -3,
\"destroy\": -3,
\"die\": -3,
\"dirty\": -2,
\"disappointed\": -2,
\"disaster\": -2,
\"disgust\": -3,
\"dishonest\": -2,
\"dislike\": -2,
\"doom\": -2,
\"doubt\": -1,
\"dream\": 1,
\"drunk\": -2,
\"dumb\": -3,
\"eager\": 2,
\"easy\": 1,
\"embarrass\": -2,
\"empty\": -1,
\"encourage\": 2,
\"enemy\": -2,
\"energetic\": 2,
\"enjoy\": 2,
\"evil\": -3,
\"excellent\": 3,
\"excited\": 3,
\"fabulous\": 4,
\"fail\": -2,
\"fake\": -3,
\"fantastic\": 4,
\"fear\": -2,
\"fine\": 2,
\"forgive\": 1,
\"fraud\": -4,
\"free\": 1,
\"fresh\": 1,
\"friendly\": 2,
\"frustrated\": -2,
\"fun\": 4,
\"funny\": 4,
\"generous\": 2,
\"gift\": 2,
\"glad\": 3,
\"gloomy\": -2,
\"good\": 3,
\"grateful\": 3,
\"great\": 3,
\"greed\": -3,
\"grief\": -2,
\"guilty\": -3,
\"happy\": 3,
\"hate\": -3,
\"heaven\": 2,
\"hell\": -4,
\"help\": 2,
\"hero\": 2,
\"honest\": 2,
\"hope\": 2,
\"hopeful\": 2,
\"horrible\": -3,
\"hug\": 2,
\"hurt\": -2,
\"ignore\": -1,
\"ill\": -2,
\"important\": 2,
\"impressed\": 3,
\"insult\": -2,
\"intelligent\": 2,
\"interesting\": 2,
\"jealous\": -2,
\"joke\": 2,
\"joy\": 3,
\"justice\": 2,
\"kill\": -3,
\"kind\": 2,
\"laugh\": 1,
\"lazy\": -1,
\"liar\": -3,
\"like\": 2,
\"lively\": 2,
\"lol\": 3,
\"lonely\": -2,
\"lose\": -3,
\"lost\": -3,
\"love\": 3,
\"loved\": 3,
\"lovely\": 3,
\"lucky\": 3,
\"mad\": -3,
\"menace\": -2,
\"mercy\": 2,
\"miserable\": -3,
\"miss\": -2,
\"mistake\": -2,
\"murder\": -2,
\"nervous\": -2,
\"nice\": 3,
\"no\": -1,
\"noble\": 2,
\"numb\": -1,
\"oops\": -2,
\"outraged\": -3,
\"pain\": -2,
\"panic\": -3,
\"paradise\": 3,
\"peace\": 2,
\"perfect\": 3,
\"pessimistic\": -2,
\"pleasant\": 3,
\"please\": 1,
\"pleasure\": 3,
\"poor\": -2,
\"positive\": 2,
\"powerful\": 2,
\"praise\": 3,
\"pretty\": 1,
\"proud\": 2,
\"punish\": -2,
\"rage\": -2,
\"reject\": -1,
\"relax\": 2,
\"rich\": 2,
\"rob\": -2,
\"romantic\": 2,
\"ruin\": -2,
\"sad\": -2,
\"safe\": 1,
\"satisfied\": 2,
\"scam\": -2,
\"scare\": -2,
\"secure\": 2,
\"selfish\": -3,
\"shame\": -2,
\"share\": 1,
\"shock\": -2,
\"sick\": -2,
\"silly\": -1,
\"sincere\": 2,
\"smart\": 1,
\"smile\": 2,
\"sorry\": -1,
\"spam\": -2,
\"steal\": -2,
\"strange\": -1,
\"strength\": 2,
\"strong\": 2,
\"struggle\": -2,
\"stupid\": -2,
\"success\": 2,
\"suck\": -3,
\"super\": 3,
\"superb\": 5,
\"support\": 2,
\"sweet\": 2,
\"terrible\": -3,
\"terror\": -3,
\"thank\": 2,
\"thanks\": 2,
\"threat\": -2,
\"torture\": -4,
\"tragedy\": -2,
\"trouble\": -2,
\"trust\": 1,
\"ugly\": -3,
\"unhappy\": -2,
\"united\": 1,
\"upset\": -2,
\"useful\": 2,
\"useless\": -2,
\"victim\": -3,
\"violent\": -3,
\"want\": 1,
\"war\": -2,
\"warm\": 1,
\"weak\": -2,
\"welcome\": 2,
\"win\": 4,
\"winner\": 4,
\"wish\": 1,
\"wonderful\": 4,
\"worry\": -3,
\"worse\": -3,
\"worst\": -3,
\"wow\": 4,
\"wrong\": -2,
\"yes\": 1,
\"yummy\": 3
}";

} // verus!
