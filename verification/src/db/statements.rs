//! The fixed statement templates of the aggregate store, resolved once and
//! reused across calls. Every parameter is bound positionally; no value is
//! ever interpolated into statement text. The partial-update statements are
//! not fixed templates; they are rendered by [`build_update_statement`] from
//! the list of supplied fields.

use vstd::prelude::*;

verus! {

pub const CREATE_SERVICE_INSTANCE: &'static str = "INSERT INTO service_instance (service_instance_id, service_date, service_reason, general_diagnosis, requires_followup, followup_date, pet_id) VALUES (?, ?, ?, ?, ?, ?, ?)";

pub const CREATE_SERVICE_INSTANCE_TYPE: &'static str = "INSERT INTO service_type (service_type_name, service_instance_id) VALUES (?, ?)";

pub const CREATE_GROOMING: &'static str = "INSERT INTO grooming (grooming_type, service_instance_id) VALUES (?, ?)";

pub const CREATE_PREVENTIVE_CARE: &'static str = "INSERT INTO preventive_care (treatment, vet_id, service_instance_id) VALUES (?, ?, ?)";

pub const CREATE_SURGERY: &'static str = "INSERT INTO surgery (surgery_name, anesthesia_used, complications, outcome, service_instance_id, vet_id) VALUES (?, ?, ?, ?, ?, ?)";

pub const GET_SERVICE_INSTANCE_OF_PET: &'static str = "SELECT * FROM service_instance WHERE pet_id = ?";

pub const GET_SPECIFIC_SERVICE_INSTANCE: &'static str = "SELECT * FROM service_instance WHERE service_instance_id = ?";

pub const GET_GROOMING_OF_SERVICE_INSTANCE: &'static str = "SELECT * FROM grooming WHERE service_instance_id = ?";

pub const GET_PREVENTIVE_CARE_OF_SERVICE_INSTANCE: &'static str = "SELECT * FROM preventive_care WHERE service_instance_id = ?";

pub const GET_SURGERY_OF_SERVICE_INSTANCE: &'static str = "SELECT * FROM surgery WHERE service_instance_id = ?";

pub const GET_SERVICE_INSTANCE_TYPE: &'static str = "SELECT service_type_name FROM service_type WHERE service_instance_id = ?";

pub const GET_VETERINARIAN: &'static str = "SELECT * FROM veterinarian WHERE vet_id = ?";

pub const GET_SERVICES_HISTORY_OF_PET: &'static str = "SELECT service_instance.*, service_type.service_type_name FROM service_instance LEFT JOIN service_type ON service_instance.service_instance_id = service_type.service_instance_id WHERE service_instance.pet_id = ? ORDER BY service_instance.service_instance_id";

pub const DELETE_SERVICE_TYPES_OF_INSTANCE: &'static str = "DELETE FROM service_type WHERE service_instance_id = ?";

pub const DELETE_GROOMING: &'static str = "DELETE FROM grooming WHERE grooming_id = ?";

pub const DELETE_PREVENTIVE_CARE: &'static str = "DELETE FROM preventive_care WHERE preventive_care_id = ?";

pub const DELETE_SURGERY: &'static str = "DELETE FROM surgery WHERE surgery_id = ?";

pub const DELETE_SERVICE_INSTANCE: &'static str = "DELETE FROM service_instance WHERE service_instance_id = ?";

/// The SET clause over the first `k` of the supplied column names: each
/// column rendered as `name = ?`, separated by `, `.
pub open spec fn set_clause_prefix(names: Seq<Seq<char>>, k: int) -> Seq<char>
    decreases k,
{
    if k <= 0 {
        Seq::<char>::empty()
    } else if k == 1 {
        names[0] + " = ?"@
    } else {
        set_clause_prefix(names, k - 1) + ", "@ + names[k - 1] + " = ?"@
    }
}

/// The full text of a partial-update statement over the supplied column
/// names: `UPDATE <table> SET <clauses> WHERE <key_column> = ?`. With no
/// supplied column the statement degenerates to a no-op update of the key
/// column to itself.
pub open spec fn update_statement_text(
    table: Seq<char>,
    names: Seq<Seq<char>>,
    key_column: Seq<char>,
) -> Seq<char> {
    let set_part = if names.len() == 0 {
        key_column + " = ?"@
    } else {
        set_clause_prefix(names, names.len() as int)
    };
    "UPDATE "@ + table + " SET "@ + set_part + " WHERE "@ + key_column + " = ?"@
}

/// The parameter list that goes with [`update_statement_text`]: the supplied
/// values in order, the key value once more when no column was supplied (the
/// no-op update binds it in the SET clause), and the key value for the WHERE
/// clause last.
pub open spec fn update_statement_params(
    values: Seq<Seq<char>>,
    key_value: Seq<char>,
) -> Seq<Seq<char>> {
    if values.len() == 0 {
        seq![key_value, key_value]
    } else {
        values + seq![key_value]
    }
}

/// The column names of a list of (column, value) pairs, in order.
pub open spec fn pair_names(pairs: Seq<(Seq<char>, Seq<char>)>) -> Seq<Seq<char>> {
    Seq::new(pairs.len(), |i: int| pairs[i].0)
}

/// The values of a list of (column, value) pairs, in order.
pub open spec fn pair_values(pairs: Seq<(Seq<char>, Seq<char>)>) -> Seq<Seq<char>> {
    Seq::new(pairs.len(), |i: int| pairs[i].1)
}

/// Renders a partial-update statement from the (column, value) pairs of the
/// fields a request supplied, mechanically: no trailing separator ever needs
/// trimming, and every value is returned as a positional parameter, never
/// spliced into the text.
pub fn build_update_statement(table: &str, pairs: &Vec<(String, String)>, key_column: &str, key_value: &String) -> (r: (
    String,
    Vec<String>,
))
    ensures
        r.0@ == update_statement_text(table@, pair_names(pairs.deep_view()), key_column@),
        r.1.deep_view() == update_statement_params(pair_values(pairs.deep_view()), key_value@),
{
    let ghost names = pair_names(pairs.deep_view());
    let ghost values = pair_values(pairs.deep_view());
    let mut text = String::new();
    text.append("UPDATE ");
    text.append(table);
    text.append(" SET ");
    let mut params: Vec<String> = Vec::new();
    if pairs.len() == 0 {
        text.append(key_column);
        text.append(" = ?");
        params.push(key_value.clone());
        proof {
            assert(text@ =~= "UPDATE "@ + table@ + " SET "@ + (key_column@ + " = ?"@));
            assert(params.deep_view() =~= seq![key_value@]);
        }
    } else {
        proof {
            assert(text@ =~= "UPDATE "@ + table@ + " SET "@ + set_clause_prefix(names, 0));
            assert(params.deep_view() =~= values.take(0));
        }
        let mut i: usize = 0;
        while i < pairs.len()
            invariant
                i <= pairs.len(),
                names == pair_names(pairs.deep_view()),
                values == pair_values(pairs.deep_view()),
                names.len() == pairs@.len(),
                values.len() == pairs@.len(),
                text@ == "UPDATE "@ + table@ + " SET "@ + set_clause_prefix(names, i as int),
                params.deep_view() == values.take(i as int),
            decreases pairs.len() - i,
        {
            if i > 0 {
                text.append(", ");
            }
            text.append(pairs[i].0.as_str());
            text.append(" = ?");
            let ghost prev = params.deep_view();
            params.push(pairs[i].1.clone());
            proof {
                assert(names[i as int] == pairs@[i as int].deep_view().0);
                assert(values[i as int] == pairs@[i as int].deep_view().1);
                assert(params.deep_view() =~= prev.push(values[i as int]));
                assert(values.take(i as int + 1) =~= values.take(i as int).push(
                    values[i as int],
                ));
                if i == 0 {
                    assert(text@ =~= "UPDATE "@ + table@ + " SET "@ + set_clause_prefix(
                        names,
                        1,
                    ));
                } else {
                    assert(text@ =~= "UPDATE "@ + table@ + " SET "@ + set_clause_prefix(
                        names,
                        i as int + 1,
                    ));
                }
                assert(params.deep_view() =~= values.take(i as int + 1));
            }
            i = i + 1;
        }
        proof {
            assert(params.deep_view() =~= values);
        }
    }
    text.append(" WHERE ");
    text.append(key_column);
    text.append(" = ?");
    params.push(key_value.clone());
    proof {
        assert(text@ =~= update_statement_text(table@, names, key_column@));
        assert(params.deep_view() =~= update_statement_params(values, key_value@));
    }
    (text, params)
}

} // verus!
